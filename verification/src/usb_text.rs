use vstd::prelude::*;

use crate::benchmark::BenchmarkReport;
use crate::decimal::{push_bool, push_decimal_u64, spec_bool_text, spec_decimal};
use crate::drv8323s::Drv8323sConfigReport;
use crate::output::OutputSafetyStatus;
use crate::usb_device::{realtime_packet_kind, spec_realtime_packet_kind, RealtimePacketKind};
use crate::text_api::{
    bytes_eq, lemma_decimal_reads_back, lemma_digits_value_prefix, spec_digits_value, spec_is_digit,
};

verus! {

pub const OUTPUT_ALLOWED_BIT: u32 = 1;
pub const COMMAND_BLOCKED_BIT: u32 = 2;
pub const BUS_BLOCKED_BIT: u32 = 4;
pub const DRIVER_NOT_ENABLED_BIT: u32 = 8;
pub const DRIVER_FAULT_LATCHED_BIT: u32 = 16;
pub const CONTROLLER_FAULTED_BIT: u32 = 32;
pub const HOST_TIMED_OUT_BIT: u32 = 64;
pub const BRIDGE_OUTPUTS_DISABLED_BIT: u32 = 1;
pub const BRIDGE_OUTPUTS_ENABLED_BIT: u32 = 2;
pub const BRIDGE_PREARM_NOT_PUBLISHED_BIT: u32 = 0x8000_0000;

/// The number of field names; the first `LISTED_FIELD_COUNT` of them are the
/// ones that `api_length` and `api_name=n` expose.
pub const FIELD_COUNT: usize = 34;
pub const LISTED_FIELD_COUNT: usize = 21;

/// `api_name=`
pub const API_NAME_PREFIX: [u8; 9] = [97, 112, 105, 95, 110, 97, 109, 101, 61];

/// `api_length`
pub const FIELD_0: [u8; 10] = [97, 112, 105, 95, 108, 101, 110, 103, 116, 104];
/// `api_name`
pub const FIELD_1: [u8; 8] = [97, 112, 105, 95, 110, 97, 109, 101];
/// `cpu_frequency`
pub const FIELD_2: [u8; 13] = [99, 112, 117, 95, 102, 114, 101, 113, 117, 101, 110, 99, 121];
/// `messages_version`
pub const FIELD_3: [u8; 16] = [109, 101, 115, 115, 97, 103, 101, 115, 95, 118, 101, 114, 115, 105, 111, 110];
/// `t_exec_fastloop`
pub const FIELD_4: [u8; 15] = [116, 95, 101, 120, 101, 99, 95, 102, 97, 115, 116, 108, 111, 111, 112];
/// `t_period_fastloop`
pub const FIELD_5: [u8; 17] = [116, 95, 112, 101, 114, 105, 111, 100, 95, 102, 97, 115, 116, 108, 111, 111, 112];
/// `t_exec_mainloop`
pub const FIELD_6: [u8; 15] = [116, 95, 101, 120, 101, 99, 95, 109, 97, 105, 110, 108, 111, 111, 112];
/// `t_period_mainloop`
pub const FIELD_7: [u8; 17] = [116, 95, 112, 101, 114, 105, 111, 100, 95, 109, 97, 105, 110, 108, 111, 111, 112];
/// `output_allowed`
pub const FIELD_8: [u8; 14] = [111, 117, 116, 112, 117, 116, 95, 97, 108, 108, 111, 119, 101, 100];
/// `command_blocked`
pub const FIELD_9: [u8; 15] = [99, 111, 109, 109, 97, 110, 100, 95, 98, 108, 111, 99, 107, 101, 100];
/// `bus_blocked`
pub const FIELD_10: [u8; 11] = [98, 117, 115, 95, 98, 108, 111, 99, 107, 101, 100];
/// `driver_not_enabled`
pub const FIELD_11: [u8; 18] = [100, 114, 105, 118, 101, 114, 95, 110, 111, 116, 95, 101, 110, 97, 98, 108, 101, 100];
/// `driver_fault_latched`
pub const FIELD_12: [u8; 20] = [100, 114, 105, 118, 101, 114, 95, 102, 97, 117, 108, 116, 95, 108, 97, 116, 99, 104, 101, 100];
/// `controller_faulted`
pub const FIELD_13: [u8; 18] = [99, 111, 110, 116, 114, 111, 108, 108, 101, 114, 95, 102, 97, 117, 108, 116, 101, 100];
/// `host_timed_out`
pub const FIELD_14: [u8; 14] = [104, 111, 115, 116, 95, 116, 105, 109, 101, 100, 95, 111, 117, 116];
/// `bus_voltage_raw`
pub const FIELD_15: [u8; 15] = [98, 117, 115, 95, 118, 111, 108, 116, 97, 103, 101, 95, 114, 97, 119];
/// `bridge_output_disable_status`
pub const FIELD_16: [u8; 28] = [98, 114, 105, 100, 103, 101, 95, 111, 117, 116, 112, 117, 116, 95, 100, 105, 115, 97, 98, 108, 101, 95, 115, 116, 97, 116, 117, 115];
/// `bridge_outputs_disabled`
pub const FIELD_17: [u8; 23] = [98, 114, 105, 100, 103, 101, 95, 111, 117, 116, 112, 117, 116, 115, 95, 100, 105, 115, 97, 98, 108, 101, 100];
/// `bridge_outputs_enabled`
pub const FIELD_18: [u8; 22] = [98, 114, 105, 100, 103, 101, 95, 111, 117, 116, 112, 117, 116, 115, 95, 101, 110, 97, 98, 108, 101, 100];
/// `bridge_prearm_ready`
pub const FIELD_19: [u8; 19] = [98, 114, 105, 100, 103, 101, 95, 112, 114, 101, 97, 114, 109, 95, 114, 101, 97, 100, 121];
/// `bridge_prearm_blockers`
pub const FIELD_20: [u8; 22] = [98, 114, 105, 100, 103, 101, 95, 112, 114, 101, 97, 114, 109, 95, 98, 108, 111, 99, 107, 101, 114, 115];
/// `driver_configured`
pub const FIELD_21: [u8; 17] = [100, 114, 105, 118, 101, 114, 95, 99, 111, 110, 102, 105, 103, 117, 114, 101, 100];
/// `verify_error_mask`
pub const FIELD_22: [u8; 17] = [118, 101, 114, 105, 102, 121, 95, 101, 114, 114, 111, 114, 95, 109, 97, 115, 107];
/// `transfer_error_mask`
pub const FIELD_23: [u8; 19] = [116, 114, 97, 110, 115, 102, 101, 114, 95, 101, 114, 114, 111, 114, 95, 109, 97, 115, 107];
/// `status_before`
pub const FIELD_24: [u8; 13] = [115, 116, 97, 116, 117, 115, 95, 98, 101, 102, 111, 114, 101];
/// `status_after`
pub const FIELD_25: [u8; 12] = [115, 116, 97, 116, 117, 115, 95, 97, 102, 116, 101, 114];
/// `realtime_rx_last_len`
pub const FIELD_26: [u8; 20] = [114, 101, 97, 108, 116, 105, 109, 101, 95, 114, 120, 95, 108, 97, 115, 116, 95, 108, 101, 110];
/// `realtime_rx_total`
pub const FIELD_27: [u8; 17] = [114, 101, 97, 108, 116, 105, 109, 101, 95, 114, 120, 95, 116, 111, 116, 97, 108];
/// `realtime_rx_accepted`
pub const FIELD_28: [u8; 20] = [114, 101, 97, 108, 116, 105, 109, 101, 95, 114, 120, 95, 97, 99, 99, 101, 112, 116, 101, 100];
/// `realtime_rx_unsupported`
pub const FIELD_29: [u8; 23] = [114, 101, 97, 108, 116, 105, 109, 101, 95, 114, 120, 95, 117, 110, 115, 117, 112, 112, 111, 114, 116, 101, 100];
/// `realtime_command_version`
pub const FIELD_30: [u8; 24] = [114, 101, 97, 108, 116, 105, 109, 101, 95, 99, 111, 109, 109, 97, 110, 100, 95, 118, 101, 114, 115, 105, 111, 110];
/// `realtime_command_consumed_version`
pub const FIELD_31: [u8; 33] = [114, 101, 97, 108, 116, 105, 109, 101, 95, 99, 111, 109, 109, 97, 110, 100, 95, 99, 111, 110, 115, 117, 109, 101, 100, 95, 118, 101, 114, 115, 105, 111, 110];
/// `driver_command_version`
pub const FIELD_32: [u8; 22] = [100, 114, 105, 118, 101, 114, 95, 99, 111, 109, 109, 97, 110, 100, 95, 118, 101, 114, 115, 105, 111, 110];
/// `driver_command_consumed_version`
pub const FIELD_33: [u8; 31] = [100, 114, 105, 118, 101, 114, 95, 99, 111, 109, 109, 97, 110, 100, 95, 99, 111, 110, 115, 117, 109, 101, 100, 95, 118, 101, 114, 115, 105, 111, 110];

/// The name of field `i`.
pub open spec fn spec_field_name(i: int) -> Seq<u8> {
    if i == 0 {
        FIELD_0@
    } else if i == 1 {
        FIELD_1@
    } else if i == 2 {
        FIELD_2@
    } else if i == 3 {
        FIELD_3@
    } else if i == 4 {
        FIELD_4@
    } else if i == 5 {
        FIELD_5@
    } else if i == 6 {
        FIELD_6@
    } else if i == 7 {
        FIELD_7@
    } else if i == 8 {
        FIELD_8@
    } else if i == 9 {
        FIELD_9@
    } else if i == 10 {
        FIELD_10@
    } else if i == 11 {
        FIELD_11@
    } else if i == 12 {
        FIELD_12@
    } else if i == 13 {
        FIELD_13@
    } else if i == 14 {
        FIELD_14@
    } else if i == 15 {
        FIELD_15@
    } else if i == 16 {
        FIELD_16@
    } else if i == 17 {
        FIELD_17@
    } else if i == 18 {
        FIELD_18@
    } else if i == 19 {
        FIELD_19@
    } else if i == 20 {
        FIELD_20@
    } else if i == 21 {
        FIELD_21@
    } else if i == 22 {
        FIELD_22@
    } else if i == 23 {
        FIELD_23@
    } else if i == 24 {
        FIELD_24@
    } else if i == 25 {
        FIELD_25@
    } else if i == 26 {
        FIELD_26@
    } else if i == 27 {
        FIELD_27@
    } else if i == 28 {
        FIELD_28@
    } else if i == 29 {
        FIELD_29@
    } else if i == 30 {
        FIELD_30@
    } else if i == 31 {
        FIELD_31@
    } else if i == 32 {
        FIELD_32@
    } else if i == 33 {
        FIELD_33@
    } else {
        Seq::<u8>::empty()
    }
}

/// The name of field `i`.
pub fn field_name(i: usize) -> (n: &'static [u8])
    requires
        i < FIELD_COUNT,
    ensures
        n@ == spec_field_name(i as int),
{
    match i {
        0 => &FIELD_0,
        1 => &FIELD_1,
        2 => &FIELD_2,
        3 => &FIELD_3,
        4 => &FIELD_4,
        5 => &FIELD_5,
        6 => &FIELD_6,
        7 => &FIELD_7,
        8 => &FIELD_8,
        9 => &FIELD_9,
        10 => &FIELD_10,
        11 => &FIELD_11,
        12 => &FIELD_12,
        13 => &FIELD_13,
        14 => &FIELD_14,
        15 => &FIELD_15,
        16 => &FIELD_16,
        17 => &FIELD_17,
        18 => &FIELD_18,
        19 => &FIELD_19,
        20 => &FIELD_20,
        21 => &FIELD_21,
        22 => &FIELD_22,
        23 => &FIELD_23,
        24 => &FIELD_24,
        25 => &FIELD_25,
        26 => &FIELD_26,
        27 => &FIELD_27,
        28 => &FIELD_28,
        29 => &FIELD_29,
        30 => &FIELD_30,
        31 => &FIELD_31,
        32 => &FIELD_32,
        33 => &FIELD_33,
        _ => &FIELD_0,
    }
}

/// The first field, at `from` or after, whose name is `request`.
pub open spec fn spec_field_search(request: Seq<u8>, from: nat) -> Option<int>
    decreases FIELD_COUNT - from,
{
    if from >= FIELD_COUNT {
        None
    } else if spec_field_name(from as int) == request {
        Some(from as int)
    } else {
        spec_field_search(request, from + 1)
    }
}

/// The field called `request`, if any.
pub open spec fn spec_field_index(request: Seq<u8>) -> Option<int> {
    spec_field_search(request, 0)
}

/// Whether `bit` is set in `value`.
pub open spec fn spec_flag(value: u32, bit: u32) -> bool {
    value & bit != 0
}

pub fn flag(value: u32, bit: u32) -> (b: bool)
    ensures
        b == spec_flag(value, bit),
{
    value & bit != 0
}

/// `bit` when `value` holds, else 0.
pub fn bool_flag(value: bool, bit: u32) -> (r: u32)
    ensures
        r == (if value {
            bit
        } else {
            0
        }),
{
    if value {
        bit
    } else {
        0
    }
}

/// The safety flags as a bit set, one bit per field in field order.
pub fn output_safety_flags(status: OutputSafetyStatus) -> (r: u32)
    ensures
        spec_flag(r, OUTPUT_ALLOWED_BIT) == status.output_allowed,
        spec_flag(r, COMMAND_BLOCKED_BIT) == status.command_blocked,
        spec_flag(r, BUS_BLOCKED_BIT) == status.bus_blocked,
        spec_flag(r, DRIVER_NOT_ENABLED_BIT) == status.driver_not_enabled,
        spec_flag(r, DRIVER_FAULT_LATCHED_BIT) == status.driver_fault_latched,
        spec_flag(r, CONTROLLER_FAULTED_BIT) == status.controller_faulted,
        spec_flag(r, HOST_TIMED_OUT_BIT) == status.host_timed_out,
        r < 128,
{
    let a = bool_flag(status.output_allowed, OUTPUT_ALLOWED_BIT);
    let b = bool_flag(status.command_blocked, COMMAND_BLOCKED_BIT);
    let c = bool_flag(status.bus_blocked, BUS_BLOCKED_BIT);
    let d = bool_flag(status.driver_not_enabled, DRIVER_NOT_ENABLED_BIT);
    let e = bool_flag(status.driver_fault_latched, DRIVER_FAULT_LATCHED_BIT);
    let f = bool_flag(status.controller_faulted, CONTROLLER_FAULTED_BIT);
    let g = bool_flag(status.host_timed_out, HOST_TIMED_OUT_BIT);
    let r = a | b | c | d | e | f | g;
    assert((r & 1 != 0) == (a != 0) && (r & 2 != 0) == (b != 0) && (r & 4 != 0) == (c != 0) && (r
        & 8 != 0) == (d != 0) && (r & 16 != 0) == (e != 0) && (r & 32 != 0) == (f != 0) && (r & 64
        != 0) == (g != 0) && r < 128) by (bit_vector)
        requires
            a == 0 || a == 1,
            b == 0 || b == 2,
            c == 0 || c == 4,
            d == 0 || d == 8,
            e == 0 || e == 16,
            f == 0 || f == 32,
            g == 0 || g == 64,
            r == a | b | c | d | e | f | g,
    ;
    r
}

/// The published values that the immediate text API reports.
#[derive(Clone, Copy, Debug, PartialEq, Eq, Structural)]
pub struct UsbTelemetry {
    pub t_exec_fastloop: u32,
    pub t_period_fastloop: u32,
    pub t_exec_mainloop: u32,
    pub t_period_mainloop: u32,
    pub output_safety_flags: u32,
    pub bus_voltage_raw: u32,
    pub hrtim_output_disable_status: u32,
    pub hrtim_bridge_output_flags: u32,
    pub bridge_prearm_blockers: u32,
    pub driver_configured: u8,
    pub driver_verify_error_mask: u32,
    pub driver_transfer_error_mask: u32,
    pub driver_status_before: u32,
    pub driver_status_after: u32,
    pub realtime_rx_last_len: u8,
    pub realtime_rx_total: u32,
    pub realtime_rx_accepted: u32,
    pub realtime_rx_unsupported: u32,
    pub realtime_command_version: u32,
    pub realtime_command_consumed_version: u32,
    pub driver_command_version: u32,
    pub driver_command_consumed_version: u32,
}

/// A non-empty string of decimal digits whose value fits a `usize`.
pub open spec fn spec_parse_decimal_usize(s: Seq<u8>) -> Option<usize> {
    if s.len() > 0 && (forall|i: int| 0 <= i < s.len() ==> spec_is_digit(s[i]))
        && spec_digits_value(s) <= usize::MAX {
        Some(spec_digits_value(s) as usize)
    } else {
        None
    }
}

/// The decimal number that `input` spells; `None` when empty, for any
/// non-digit, or when it does not fit a `usize`.
pub fn parse_decimal_usize(input: &[u8]) -> (r: Option<usize>)
    ensures
        r == spec_parse_decimal_usize(input@),
{
    if input.len() == 0 {
        return None;
    }
    let mut value: usize = 0;
    let mut i: usize = 0;
    while i < input.len()
        invariant
            0 < input@.len(),
            i <= input@.len(),
            forall|j: int| 0 <= j < i ==> spec_is_digit(input@[j]),
            value == spec_digits_value(input@.subrange(0, i as int)),
        decreases input@.len() - i,
    {
        let byte = input[i];
        if byte < 48 || byte > 57 {
            return None;
        }
        assert(input@.subrange(0, i + 1).drop_last() =~= input@.subrange(0, i as int));
        let next = match value.checked_mul(10) {
            Some(v) => v.checked_add((byte - 48) as usize),
            None => None,
        };
        match next {
            Some(v) => {
                value = v;
            },
            None => {
                proof {
                    lemma_digits_value_prefix(input@, i + 1);
                }
                return None;
            },
        }
        i = i + 1;
    }
    assert(input@.subrange(0, i as int) =~= input@);
    Some(value)
}

/// How a reply written into `output` relates to the expected text: no text,
/// or a text longer than `output`, gives `None` and leaves `output` alone;
/// otherwise the text is written at the front and its length returned.
pub open spec fn spec_replies(
    r: Option<usize>,
    expected: Option<Seq<u8>>,
    before: Seq<u8>,
    after: Seq<u8>,
) -> bool {
    match expected {
        None => r is None && after == before,
        Some(text) => if text.len() > before.len() {
            r is None && after == before
        } else {
            r == Some(text.len() as usize) && after == text + before.subrange(
                text.len() as int,
                before.len() as int,
            )
        },
    }
}

/// Writes `bytes` at the front of `output`.
pub fn write_bytes(bytes: &[u8], output: &mut [u8]) -> (r: Option<usize>)
    ensures
        spec_replies(r, Some(bytes@), old(output)@, final(output)@),
{
    if bytes.len() > output.len() {
        return None;
    }
    let ghost before = output@;
    let mut i: usize = 0;
    while i < bytes.len()
        invariant
            i <= bytes@.len() <= before.len(),
            output@.len() == before.len(),
            forall|j: int| 0 <= j < i ==> output@[j] == bytes@[j],
            forall|j: int| bytes@.len() <= j < before.len() ==> output@[j] == before[j],
        decreases bytes@.len() - i,
    {
        output[i] = bytes[i];
        i = i + 1;
    }
    assert(output@ =~= bytes@ + before.subrange(bytes@.len() as int, before.len() as int));
    Some(bytes.len())
}

/// Writes `"true"` or `"false"` at the front of `output`.
pub fn write_bool(value: bool, output: &mut [u8]) -> (r: Option<usize>)
    ensures
        spec_replies(r, Some(spec_bool_text(value)), old(output)@, final(output)@),
{
    let mut text: Vec<u8> = Vec::new();
    push_bool(&mut text, value);
    assert(text@ =~= spec_bool_text(value));
    write_bytes(text.as_slice(), output)
}

/// Writes the decimal digits of `value` at the front of `output`.
pub fn write_u32_decimal(value: u32, output: &mut [u8]) -> (r: Option<usize>)
    ensures
        spec_replies(r, Some(spec_decimal(value as nat)), old(output)@, final(output)@),
{
    let mut text: Vec<u8> = Vec::new();
    push_decimal_u64(&mut text, value as u64);
    assert(text@ =~= spec_decimal(value as nat));
    write_bytes(text.as_slice(), output)
}

/// The field that `request` names.
fn field_index(request: &[u8]) -> (r: Option<usize>)
    ensures
        match r {
            None => spec_field_index(request@) is None,
            Some(i) => spec_field_index(request@) == Some(i as int),
        },
{
    let mut i: usize = 0;
    while i < FIELD_COUNT
        invariant
            i <= FIELD_COUNT,
            spec_field_index(request@) == spec_field_search(request@, i as nat),
        decreases FIELD_COUNT - i,
    {
        if bytes_eq(field_name(i), request) {
            return Some(i);
        }
        i = i + 1;
    }
    None
}

impl UsbTelemetry {
    /// Nothing published yet: bridge outputs read as disabled and the
    /// pre-arm blockers as not yet published.
    pub fn new() -> (t: Self)
        ensures
            t.hrtim_bridge_output_flags == BRIDGE_OUTPUTS_DISABLED_BIT,
            t.bridge_prearm_blockers == BRIDGE_PREARM_NOT_PUBLISHED_BIT,
            t.t_exec_fastloop == 0 && t.t_period_fastloop == 0 && t.t_exec_mainloop == 0
                && t.t_period_mainloop == 0,
            t.output_safety_flags == 0 && t.bus_voltage_raw == 0 && t.hrtim_output_disable_status
                == 0,
            t.driver_configured == 0 && t.driver_verify_error_mask == 0
                && t.driver_transfer_error_mask == 0 && t.driver_status_before == 0
                && t.driver_status_after == 0,
            t.realtime_rx_last_len == 0 && t.realtime_rx_total == 0 && t.realtime_rx_accepted == 0
                && t.realtime_rx_unsupported == 0,
            t.realtime_command_version == 0 && t.realtime_command_consumed_version == 0
                && t.driver_command_version == 0 && t.driver_command_consumed_version == 0,
    {
        UsbTelemetry {
            t_exec_fastloop: 0,
            t_period_fastloop: 0,
            t_exec_mainloop: 0,
            t_period_mainloop: 0,
            output_safety_flags: 0,
            bus_voltage_raw: 0,
            hrtim_output_disable_status: 0,
            hrtim_bridge_output_flags: BRIDGE_OUTPUTS_DISABLED_BIT,
            bridge_prearm_blockers: BRIDGE_PREARM_NOT_PUBLISHED_BIT,
            driver_configured: 0,
            driver_verify_error_mask: 0,
            driver_transfer_error_mask: 0,
            driver_status_before: 0,
            driver_status_after: 0,
            realtime_rx_last_len: 0,
            realtime_rx_total: 0,
            realtime_rx_accepted: 0,
            realtime_rx_unsupported: 0,
            realtime_command_version: 0,
            realtime_command_consumed_version: 0,
            driver_command_version: 0,
            driver_command_consumed_version: 0,
        }
    }

    /// Publishes the last period and execution time of both loops.
    pub fn publish_text_api_benchmark(&mut self, report: BenchmarkReport)
        ensures
            *final(self) == (UsbTelemetry {
                t_exec_fastloop: report.fast.execution.last_cycles,
                t_period_fastloop: report.fast.period.last_cycles,
                t_exec_mainloop: report.main.execution.last_cycles,
                t_period_mainloop: report.main.period.last_cycles,
                ..*old(self)
            }),
    {
        self.t_exec_fastloop = report.t_exec_fastloop();
        self.t_period_fastloop = report.t_period_fastloop();
        self.t_exec_mainloop = report.t_exec_mainloop();
        self.t_period_mainloop = report.t_period_mainloop();
    }

    /// Publishes the output gate status as flags.
    pub fn publish_output_safety_status(&mut self, status: OutputSafetyStatus)
        ensures
            *final(self) == (UsbTelemetry {
                output_safety_flags: final(self).output_safety_flags,
                ..*old(self)
            }),
            spec_flag(final(self).output_safety_flags, OUTPUT_ALLOWED_BIT) == status.output_allowed,
            spec_flag(final(self).output_safety_flags, COMMAND_BLOCKED_BIT)
                == status.command_blocked,
            spec_flag(final(self).output_safety_flags, BUS_BLOCKED_BIT) == status.bus_blocked,
            spec_flag(final(self).output_safety_flags, DRIVER_NOT_ENABLED_BIT)
                == status.driver_not_enabled,
            spec_flag(final(self).output_safety_flags, DRIVER_FAULT_LATCHED_BIT)
                == status.driver_fault_latched,
            spec_flag(final(self).output_safety_flags, CONTROLLER_FAULTED_BIT)
                == status.controller_faulted,
            spec_flag(final(self).output_safety_flags, HOST_TIMED_OUT_BIT)
                == status.host_timed_out,
            final(self).output_safety_flags < 128,
    {
        self.output_safety_flags = output_safety_flags(status);
    }

    pub fn publish_bus_voltage_raw(&mut self, raw: u16)
        ensures
            *final(self) == (UsbTelemetry { bus_voltage_raw: raw as u32, ..*old(self) }),
    {
        self.bus_voltage_raw = raw as u32;
    }

    /// Publishes the bridge output disable register and whether the bridge
    /// outputs are disabled or enabled.
    pub fn publish_hrtim_output_status(
        &mut self,
        disable_status: u32,
        bridge_outputs_disabled: bool,
        bridge_outputs_enabled: bool,
    )
        ensures
            *final(self) == (UsbTelemetry {
                hrtim_output_disable_status: disable_status,
                hrtim_bridge_output_flags: ((if bridge_outputs_disabled {
                    BRIDGE_OUTPUTS_DISABLED_BIT
                } else {
                    0
                }) + (if bridge_outputs_enabled {
                    BRIDGE_OUTPUTS_ENABLED_BIT
                } else {
                    0
                })) as u32,
                ..*old(self)
            }),
    {
        self.hrtim_output_disable_status = disable_status;
        let a = bool_flag(bridge_outputs_disabled, BRIDGE_OUTPUTS_DISABLED_BIT);
        let b = bool_flag(bridge_outputs_enabled, BRIDGE_OUTPUTS_ENABLED_BIT);
        let f = a | b;
        assert(f == a + b) by (bit_vector)
            requires
                a == 0 || a == 1,
                b == 0 || b == 2,
                f == a | b,
        ;
        self.hrtim_bridge_output_flags = f;
    }

    pub fn publish_bridge_prearm_status(&mut self, blockers: u32)
        ensures
            *final(self) == (UsbTelemetry { bridge_prearm_blockers: blockers, ..*old(self) }),
    {
        self.bridge_prearm_blockers = blockers;
    }

    /// Publishes the DRV8323S configuration; a missing status reads as 0.
    pub fn publish_driver_report(&mut self, report: Drv8323sConfigReport)
        ensures
            *final(self) == (UsbTelemetry {
                driver_configured: if report.verify_error_mask == 0 && report.transfer_error_mask
                    == 0 {
                    1
                } else {
                    0
                },
                driver_verify_error_mask: report.verify_error_mask as u32,
                driver_transfer_error_mask: report.transfer_error_mask as u32,
                driver_status_before: match report.status_before {
                    Some(s) => (s.fault_status_1 + 0x1_0000 * s.vgs_status_2) as u32,
                    None => 0,
                },
                driver_status_after: match report.status_after {
                    Some(s) => (s.fault_status_1 + 0x1_0000 * s.vgs_status_2) as u32,
                    None => 0,
                },
                ..*old(self)
            }),
    {
        self.driver_configured = if report.configured() {
            1
        } else {
            0
        };
        self.driver_verify_error_mask = report.verify_error_mask as u32;
        self.driver_transfer_error_mask = report.transfer_error_mask as u32;
        self.driver_status_before = match report.status_before {
            Some(s) => s.as_u32(),
            None => 0,
        };
        self.driver_status_after = match report.status_after {
            Some(s) => s.as_u32(),
            None => 0,
        };
    }

    /// Counts a packet of `len` bytes received on the realtime endpoint and
    /// says what it is: command and driver command packets are accepted,
    /// any other length is unsupported. The counters wrap.
    pub fn record_realtime_rx(&mut self, len: usize) -> (k: RealtimePacketKind)
        requires
            len <= 64,
        ensures
            k == spec_realtime_packet_kind(len),
            *final(self) == (UsbTelemetry {
                realtime_rx_last_len: len as u8,
                realtime_rx_total: ((old(self).realtime_rx_total + 1) % 0x1_0000_0000) as u32,
                realtime_rx_accepted: if k == RealtimePacketKind::Unsupported {
                    old(self).realtime_rx_accepted
                } else {
                    ((old(self).realtime_rx_accepted + 1) % 0x1_0000_0000) as u32
                },
                realtime_rx_unsupported: if k == RealtimePacketKind::Unsupported {
                    ((old(self).realtime_rx_unsupported + 1) % 0x1_0000_0000) as u32
                } else {
                    old(self).realtime_rx_unsupported
                },
                ..*old(self)
            }),
    {
        self.realtime_rx_last_len = len as u8;
        self.realtime_rx_total = self.realtime_rx_total.wrapping_add(1);
        let kind = realtime_packet_kind(len);
        match kind {
            RealtimePacketKind::Unsupported => {
                self.realtime_rx_unsupported = self.realtime_rx_unsupported.wrapping_add(1);
            },
            _ => {
                self.realtime_rx_accepted = self.realtime_rx_accepted.wrapping_add(1);
            },
        }
        kind
    }

    /// The text of field `field`; `api_length` and `api_name` have none here.
    pub open spec fn spec_field_value(&self, field: int) -> Option<Seq<u8>> {
        if field == 2 {
            Some(spec_decimal(170_000_000))
        } else if field == 3 {
            Some(seq![51u8, 46u8, 51u8])
        } else if field == 4 {
            Some(spec_decimal(self.t_exec_fastloop as nat))
        } else if field == 5 {
            Some(spec_decimal(self.t_period_fastloop as nat))
        } else if field == 6 {
            Some(spec_decimal(self.t_exec_mainloop as nat))
        } else if field == 7 {
            Some(spec_decimal(self.t_period_mainloop as nat))
        } else if field == 8 {
            Some(spec_bool_text(spec_flag(self.output_safety_flags, OUTPUT_ALLOWED_BIT)))
        } else if field == 9 {
            Some(spec_bool_text(spec_flag(self.output_safety_flags, COMMAND_BLOCKED_BIT)))
        } else if field == 10 {
            Some(spec_bool_text(spec_flag(self.output_safety_flags, BUS_BLOCKED_BIT)))
        } else if field == 11 {
            Some(spec_bool_text(spec_flag(self.output_safety_flags, DRIVER_NOT_ENABLED_BIT)))
        } else if field == 12 {
            Some(spec_bool_text(spec_flag(self.output_safety_flags, DRIVER_FAULT_LATCHED_BIT)))
        } else if field == 13 {
            Some(spec_bool_text(spec_flag(self.output_safety_flags, CONTROLLER_FAULTED_BIT)))
        } else if field == 14 {
            Some(spec_bool_text(spec_flag(self.output_safety_flags, HOST_TIMED_OUT_BIT)))
        } else if field == 15 {
            Some(spec_decimal(self.bus_voltage_raw as nat))
        } else if field == 16 {
            Some(spec_decimal(self.hrtim_output_disable_status as nat))
        } else if field == 17 {
            Some(spec_bool_text(spec_flag(self.hrtim_bridge_output_flags, BRIDGE_OUTPUTS_DISABLED_BIT)))
        } else if field == 18 {
            Some(spec_bool_text(spec_flag(self.hrtim_bridge_output_flags, BRIDGE_OUTPUTS_ENABLED_BIT)))
        } else if field == 19 {
            Some(spec_bool_text(self.bridge_prearm_blockers == 0))
        } else if field == 20 {
            Some(spec_decimal(self.bridge_prearm_blockers as nat))
        } else if field == 21 {
            Some(spec_bool_text(self.driver_configured != 0))
        } else if field == 22 {
            Some(spec_decimal(self.driver_verify_error_mask as nat))
        } else if field == 23 {
            Some(spec_decimal(self.driver_transfer_error_mask as nat))
        } else if field == 24 {
            Some(spec_decimal(self.driver_status_before as nat))
        } else if field == 25 {
            Some(spec_decimal(self.driver_status_after as nat))
        } else if field == 26 {
            Some(spec_decimal(self.realtime_rx_last_len as nat))
        } else if field == 27 {
            Some(spec_decimal(self.realtime_rx_total as nat))
        } else if field == 28 {
            Some(spec_decimal(self.realtime_rx_accepted as nat))
        } else if field == 29 {
            Some(spec_decimal(self.realtime_rx_unsupported as nat))
        } else if field == 30 {
            Some(spec_decimal(self.realtime_command_version as nat))
        } else if field == 31 {
            Some(spec_decimal(self.realtime_command_consumed_version as nat))
        } else if field == 32 {
            Some(spec_decimal(self.driver_command_version as nat))
        } else if field == 33 {
            Some(spec_decimal(self.driver_command_consumed_version as nat))
        } else {
            None
        }
    }

    /// The reply to an immediate text request: `api_length` gives the number
    /// of listed names, `api_name=n` the n-th listed name, and a field name
    /// the field's value.
    pub open spec fn spec_response(&self, request: Seq<u8>) -> Option<Seq<u8>> {
        if request == FIELD_0@ {
            Some(spec_decimal(LISTED_FIELD_COUNT as nat))
        } else if request.len() >= 9 && request.subrange(0, 9) == API_NAME_PREFIX@ {
            match spec_parse_decimal_usize(request.subrange(9, request.len() as int)) {
                None => None,
                Some(index) => if index < LISTED_FIELD_COUNT {
                    Some(spec_field_name(index as int))
                } else {
                    None
                },
            }
        } else {
            match spec_field_index(request) {
                None => None,
                Some(field) => self.spec_field_value(field),
            }
        }
    }

    /// Answers an immediate text request into `output`.
    pub fn format_text_api_response(&self, request: &[u8], output: &mut [u8]) -> (r: Option<
        usize,
    >)
        ensures
            spec_replies(r, self.spec_response(request@), old(output)@, final(output)@),
    {
        if bytes_eq(request, &FIELD_0) {
            return write_u32_decimal(LISTED_FIELD_COUNT as u32, output);
        }
        if request.len() >= 9 && bytes_eq(&request[0..9], &API_NAME_PREFIX) {
            let index = match parse_decimal_usize(&request[9..request.len()]) {
                None => return None,
                Some(i) => i,
            };
            if index >= LISTED_FIELD_COUNT {
                return None;
            }
            return write_bytes(field_name(index), output);
        }
        let field = match field_index(request) {
            None => return None,
            Some(f) => f,
        };
        let mut text: Vec<u8> = Vec::new();
        match field {
            2 => push_decimal_u64(&mut text, 170_000_000),
            3 => { text.push(51); text.push(46); text.push(51); },
            4 => push_decimal_u64(&mut text, self.t_exec_fastloop as u64),
            5 => push_decimal_u64(&mut text, self.t_period_fastloop as u64),
            6 => push_decimal_u64(&mut text, self.t_exec_mainloop as u64),
            7 => push_decimal_u64(&mut text, self.t_period_mainloop as u64),
            8 => push_bool(&mut text, flag(self.output_safety_flags, OUTPUT_ALLOWED_BIT)),
            9 => push_bool(&mut text, flag(self.output_safety_flags, COMMAND_BLOCKED_BIT)),
            10 => push_bool(&mut text, flag(self.output_safety_flags, BUS_BLOCKED_BIT)),
            11 => push_bool(&mut text, flag(self.output_safety_flags, DRIVER_NOT_ENABLED_BIT)),
            12 => push_bool(&mut text, flag(self.output_safety_flags, DRIVER_FAULT_LATCHED_BIT)),
            13 => push_bool(&mut text, flag(self.output_safety_flags, CONTROLLER_FAULTED_BIT)),
            14 => push_bool(&mut text, flag(self.output_safety_flags, HOST_TIMED_OUT_BIT)),
            15 => push_decimal_u64(&mut text, self.bus_voltage_raw as u64),
            16 => push_decimal_u64(&mut text, self.hrtim_output_disable_status as u64),
            17 => push_bool(&mut text, flag(self.hrtim_bridge_output_flags, BRIDGE_OUTPUTS_DISABLED_BIT)),
            18 => push_bool(&mut text, flag(self.hrtim_bridge_output_flags, BRIDGE_OUTPUTS_ENABLED_BIT)),
            19 => push_bool(&mut text, self.bridge_prearm_blockers == 0),
            20 => push_decimal_u64(&mut text, self.bridge_prearm_blockers as u64),
            21 => push_bool(&mut text, self.driver_configured != 0),
            22 => push_decimal_u64(&mut text, self.driver_verify_error_mask as u64),
            23 => push_decimal_u64(&mut text, self.driver_transfer_error_mask as u64),
            24 => push_decimal_u64(&mut text, self.driver_status_before as u64),
            25 => push_decimal_u64(&mut text, self.driver_status_after as u64),
            26 => push_decimal_u64(&mut text, self.realtime_rx_last_len as u64),
            27 => push_decimal_u64(&mut text, self.realtime_rx_total as u64),
            28 => push_decimal_u64(&mut text, self.realtime_rx_accepted as u64),
            29 => push_decimal_u64(&mut text, self.realtime_rx_unsupported as u64),
            30 => push_decimal_u64(&mut text, self.realtime_command_version as u64),
            31 => push_decimal_u64(&mut text, self.realtime_command_consumed_version as u64),
            32 => push_decimal_u64(&mut text, self.driver_command_version as u64),
            33 => push_decimal_u64(&mut text, self.driver_command_consumed_version as u64),
            _ => return None,
        }
        assert(text@ =~= self.spec_field_value(field as int).unwrap());
        write_bytes(text.as_slice(), output)
    }
}

/// The search from `from` finds field `k` when `k` is called `request` and
/// no field between `from` and `k` is.
proof fn lemma_field_search_finds(request: Seq<u8>, from: nat, k: nat)
    requires
        from <= k < FIELD_COUNT,
        spec_field_name(k as int) == request,
        forall|j: int| from <= j < k ==> spec_field_name(j) != request,
    ensures
        spec_field_search(request, from) == Some(k as int),
    decreases k - from,
{
    if from < k {
        lemma_field_search_finds(request, from + 1, k);
    }
}

/// No two fields share a name.
proof fn lemma_field_names_differ(k: int)
    requires
        0 <= k < FIELD_COUNT,
    ensures
        forall|j: int| 0 <= j < k ==> spec_field_name(j) != spec_field_name(k),
{
    assert forall|j: int| 0 <= j < k implies spec_field_name(j) != spec_field_name(k) by {
        if spec_field_name(j) == spec_field_name(k) {
            assert(spec_field_name(j)[0] == spec_field_name(k)[0]);
            assert(spec_field_name(j)[7] == spec_field_name(k)[7]);
            assert(spec_field_name(j)[9] == spec_field_name(k)[9]);
            assert(spec_field_name(j)[12] == spec_field_name(k)[12]);
        }
    }
}

/// The field whose name `request` is, if `request` names one other than
/// `api_length` and `api_name`; such a name does not start with `api_name=`.
proof fn lemma_field_found(request: Seq<u8>, k: int)
    requires
        2 <= k < FIELD_COUNT,
        request == spec_field_name(k),
    ensures
        spec_field_index(request) == Some(k),
        request != FIELD_0@,
        !(request.len() >= 9 && request.subrange(0, 9) == API_NAME_PREFIX@),
{
    lemma_field_names_differ(k);
    lemma_field_search_finds(request, 0, k as nat);
    assert(request[0] != API_NAME_PREFIX@[0]);
    if request.len() >= 9 {
        assert(request.subrange(0, 9)[0] != API_NAME_PREFIX@[0]);
    }
}

/// `api_length` is answered with the number of listed names, 21, and each
/// field name with the text of the telemetry value of that name:
/// `cpu_frequency` the core clock in hertz, `messages_version` "3.3", the
/// loop timings, the output gate and bridge flags as `true` or `false`,
/// the bus voltage, the DRV8323S report, and each packet counter and
/// version by its own name (`realtime_rx_unsupported` the number of
/// unsupported realtime packets, `realtime_rx_accepted` the accepted ones).
pub proof fn lemma_field_replies(t: UsbTelemetry)
    ensures
        t.spec_response(FIELD_0@) == Some(spec_decimal(21)),
        t.spec_response(FIELD_2@) == Some(spec_decimal(170_000_000)),
        t.spec_response(FIELD_3@) == Some(seq![51u8, 46u8, 51u8]),
        t.spec_response(FIELD_4@) == Some(spec_decimal(t.t_exec_fastloop as nat)),
        t.spec_response(FIELD_5@) == Some(spec_decimal(t.t_period_fastloop as nat)),
        t.spec_response(FIELD_6@) == Some(spec_decimal(t.t_exec_mainloop as nat)),
        t.spec_response(FIELD_7@) == Some(spec_decimal(t.t_period_mainloop as nat)),
        t.spec_response(FIELD_8@) == Some(
            spec_bool_text(spec_flag(t.output_safety_flags, OUTPUT_ALLOWED_BIT)),
        ),
        t.spec_response(FIELD_9@) == Some(
            spec_bool_text(spec_flag(t.output_safety_flags, COMMAND_BLOCKED_BIT)),
        ),
        t.spec_response(FIELD_10@) == Some(
            spec_bool_text(spec_flag(t.output_safety_flags, BUS_BLOCKED_BIT)),
        ),
        t.spec_response(FIELD_11@) == Some(
            spec_bool_text(spec_flag(t.output_safety_flags, DRIVER_NOT_ENABLED_BIT)),
        ),
        t.spec_response(FIELD_12@) == Some(
            spec_bool_text(spec_flag(t.output_safety_flags, DRIVER_FAULT_LATCHED_BIT)),
        ),
        t.spec_response(FIELD_13@) == Some(
            spec_bool_text(spec_flag(t.output_safety_flags, CONTROLLER_FAULTED_BIT)),
        ),
        t.spec_response(FIELD_14@) == Some(
            spec_bool_text(spec_flag(t.output_safety_flags, HOST_TIMED_OUT_BIT)),
        ),
        t.spec_response(FIELD_15@) == Some(spec_decimal(t.bus_voltage_raw as nat)),
        t.spec_response(FIELD_16@) == Some(spec_decimal(t.hrtim_output_disable_status as nat)),
        t.spec_response(FIELD_17@) == Some(
            spec_bool_text(spec_flag(t.hrtim_bridge_output_flags, BRIDGE_OUTPUTS_DISABLED_BIT)),
        ),
        t.spec_response(FIELD_18@) == Some(
            spec_bool_text(spec_flag(t.hrtim_bridge_output_flags, BRIDGE_OUTPUTS_ENABLED_BIT)),
        ),
        t.spec_response(FIELD_19@) == Some(spec_bool_text(t.bridge_prearm_blockers == 0)),
        t.spec_response(FIELD_20@) == Some(spec_decimal(t.bridge_prearm_blockers as nat)),
        t.spec_response(FIELD_21@) == Some(spec_bool_text(t.driver_configured != 0)),
        t.spec_response(FIELD_22@) == Some(spec_decimal(t.driver_verify_error_mask as nat)),
        t.spec_response(FIELD_23@) == Some(spec_decimal(t.driver_transfer_error_mask as nat)),
        t.spec_response(FIELD_24@) == Some(spec_decimal(t.driver_status_before as nat)),
        t.spec_response(FIELD_25@) == Some(spec_decimal(t.driver_status_after as nat)),
        t.spec_response(FIELD_26@) == Some(spec_decimal(t.realtime_rx_last_len as nat)),
        t.spec_response(FIELD_27@) == Some(spec_decimal(t.realtime_rx_total as nat)),
        t.spec_response(FIELD_28@) == Some(spec_decimal(t.realtime_rx_accepted as nat)),
        t.spec_response(FIELD_29@) == Some(spec_decimal(t.realtime_rx_unsupported as nat)),
        t.spec_response(FIELD_30@) == Some(spec_decimal(t.realtime_command_version as nat)),
        t.spec_response(FIELD_31@) == Some(
            spec_decimal(t.realtime_command_consumed_version as nat),
        ),
        t.spec_response(FIELD_32@) == Some(spec_decimal(t.driver_command_version as nat)),
        t.spec_response(FIELD_33@) == Some(spec_decimal(t.driver_command_consumed_version as nat)),
{
    lemma_field_found(FIELD_2@, 2);
    lemma_field_found(FIELD_3@, 3);
    lemma_field_found(FIELD_4@, 4);
    lemma_field_found(FIELD_5@, 5);
    lemma_field_found(FIELD_6@, 6);
    lemma_field_found(FIELD_7@, 7);
    lemma_field_found(FIELD_8@, 8);
    lemma_field_found(FIELD_9@, 9);
    lemma_field_found(FIELD_10@, 10);
    lemma_field_found(FIELD_11@, 11);
    lemma_field_found(FIELD_12@, 12);
    lemma_field_found(FIELD_13@, 13);
    lemma_field_found(FIELD_14@, 14);
    lemma_field_found(FIELD_15@, 15);
    lemma_field_found(FIELD_16@, 16);
    lemma_field_found(FIELD_17@, 17);
    lemma_field_found(FIELD_18@, 18);
    lemma_field_found(FIELD_19@, 19);
    lemma_field_found(FIELD_20@, 20);
    lemma_field_found(FIELD_21@, 21);
    lemma_field_found(FIELD_22@, 22);
    lemma_field_found(FIELD_23@, 23);
    lemma_field_found(FIELD_24@, 24);
    lemma_field_found(FIELD_25@, 25);
    lemma_field_found(FIELD_26@, 26);
    lemma_field_found(FIELD_27@, 27);
    lemma_field_found(FIELD_28@, 28);
    lemma_field_found(FIELD_29@, 29);
    lemma_field_found(FIELD_30@, 30);
    lemma_field_found(FIELD_31@, 31);
    lemma_field_found(FIELD_32@, 32);
    lemma_field_found(FIELD_33@, 33);
}

/// `api_name=n` is answered with the n-th listed field name for each of
/// the 21 listed fields, and not at all past them.
pub proof fn lemma_api_name_lists_fields(t: UsbTelemetry, n: usize)
    ensures
        n < 21 ==> t.spec_response(API_NAME_PREFIX@ + spec_decimal(n as nat)) == Some(
            spec_field_name(n as int),
        ),
        n >= 21 ==> t.spec_response(API_NAME_PREFIX@ + spec_decimal(n as nat)) is None,
{
    let d = spec_decimal(n as nat);
    let r = API_NAME_PREFIX@ + d;
    lemma_decimal_reads_back(n as nat);
    assert(r != FIELD_0@) by {
        if r.len() == FIELD_0@.len() {
            assert(r[8] == API_NAME_PREFIX@[8]);
            assert(FIELD_0@[8] != API_NAME_PREFIX@[8]);
        }
    }
    assert(r.subrange(0, 9) =~= API_NAME_PREFIX@);
    assert(r.subrange(9, r.len() as int) =~= d);
}

} // verus!
