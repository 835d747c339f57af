use vstd::prelude::*;
use vstd::string::StringSliceAdditionalSpecFns;

use crate::benchmark::{BenchmarkReport, CycleStatsSnapshot, LoopBenchmarkSnapshot};
use crate::control::{ControlMode, Fault};
use crate::le_bytes::{
    le_to_u16, le_to_u32, le_to_u64, lemma_le_byte_order, lemma_le_u16_roundtrip,
    lemma_le_u32_roundtrip, lemma_le_u64_roundtrip, push_bytes, push_u16_le, push_u32_le,
    push_u64_le, spec_le_u16, spec_le_u32, spec_le_u64, spec_u16_le, spec_u32_le, spec_u64_le,
    to_array, u16_to_le, u32_to_le,
};
use crate::output::OutputSafetyStatus;

verus! {

pub const COMMAND_PACKET_LEN: usize = 14;
pub const DRIVER_COMMAND_PACKET_LEN: usize = 2;
pub const STATUS_PACKET_LEN: usize = 14;
pub const DRIVER_REPORT_PACKET_LEN: usize = 14;
pub const OUTPUT_SAFETY_PACKET_LEN: usize = 2;
pub const BUS_VOLTAGE_PACKET_LEN: usize = 3;
pub const BENCHMARK_PACKET_LEN: usize = 81;
pub const TEXT_API_PAYLOAD_LEN: usize = 64;
pub const TEXT_API_REQUEST_PACKET_LEN: usize = 66;
pub const TEXT_API_RESPONSE_PACKET_LEN: usize = 67;

/// Why a packet could not be decoded.
#[derive(Clone, Copy, Debug, PartialEq, Eq, Structural)]
pub enum DecodeError {
    InvalidLength,
    InvalidMode,
    InvalidFault,
    InvalidDriverCommand,
    InvalidOutputSafetyFlags,
    InvalidTextApiLength,
    InvalidTextApiStatus,
}

/// Outcome of a text API request, as sent back to the host.
#[derive(Clone, Copy, Debug, PartialEq, Eq, Structural)]
pub enum TextApiResponseStatus {
    Success,
    ParseError,
    UnknownName,
    ReadOnly,
    NameIndexOutOfRange,
    ResponseTooLong,
    InvalidUtf8,
}

/// Host request to the DRV8323S.
#[derive(Clone, Copy, Debug, PartialEq, Eq, Structural)]
pub enum DriverCommand {
    Disable,
    ConfigureEnable,
}

// ----- single-byte codes -------------------------------------------------

pub open spec fn spec_mode_to_u8(mode: ControlMode) -> u8 {
    match mode {
        ControlMode::Disabled => 0,
        ControlMode::Torque => 1,
        ControlMode::Velocity => 2,
        ControlMode::Position => 3,
        ControlMode::ClearFaults => 250,
    }
}

pub open spec fn spec_mode_from_u8(value: u8) -> Result<ControlMode, DecodeError> {
    if value == 0 {
        Ok(ControlMode::Disabled)
    } else if value == 1 {
        Ok(ControlMode::Torque)
    } else if value == 2 {
        Ok(ControlMode::Velocity)
    } else if value == 3 {
        Ok(ControlMode::Position)
    } else if value == 250 {
        Ok(ControlMode::ClearFaults)
    } else {
        Err(DecodeError::InvalidMode)
    }
}

pub fn mode_to_u8(mode: ControlMode) -> (v: u8)
    ensures
        v == spec_mode_to_u8(mode),
{
    match mode {
        ControlMode::Disabled => 0,
        ControlMode::Torque => 1,
        ControlMode::Velocity => 2,
        ControlMode::Position => 3,
        ControlMode::ClearFaults => 250,
    }
}

pub fn mode_from_u8(value: u8) -> (r: Result<ControlMode, DecodeError>)
    ensures
        r == spec_mode_from_u8(value),
{
    match value {
        0 => Ok(ControlMode::Disabled),
        1 => Ok(ControlMode::Torque),
        2 => Ok(ControlMode::Velocity),
        3 => Ok(ControlMode::Position),
        250 => Ok(ControlMode::ClearFaults),
        _ => Err(DecodeError::InvalidMode),
    }
}

pub open spec fn spec_fault_to_u8(fault: Option<Fault>) -> u8 {
    match fault {
        None => 0,
        Some(Fault::CommandNotFinite) => 1,
        Some(Fault::TorqueLimit) => 2,
        Some(Fault::VelocityLimit) => 3,
        Some(Fault::PositionLimit) => 4,
    }
}

pub open spec fn spec_fault_from_u8(value: u8) -> Result<Option<Fault>, DecodeError> {
    if value == 0 {
        Ok(None)
    } else if value == 1 {
        Ok(Some(Fault::CommandNotFinite))
    } else if value == 2 {
        Ok(Some(Fault::TorqueLimit))
    } else if value == 3 {
        Ok(Some(Fault::VelocityLimit))
    } else if value == 4 {
        Ok(Some(Fault::PositionLimit))
    } else {
        Err(DecodeError::InvalidFault)
    }
}

pub fn fault_to_u8(fault: Option<Fault>) -> (v: u8)
    ensures
        v == spec_fault_to_u8(fault),
{
    match fault {
        None => 0,
        Some(Fault::CommandNotFinite) => 1,
        Some(Fault::TorqueLimit) => 2,
        Some(Fault::VelocityLimit) => 3,
        Some(Fault::PositionLimit) => 4,
    }
}

pub fn fault_from_u8(value: u8) -> (r: Result<Option<Fault>, DecodeError>)
    ensures
        r == spec_fault_from_u8(value),
{
    match value {
        0 => Ok(None),
        1 => Ok(Some(Fault::CommandNotFinite)),
        2 => Ok(Some(Fault::TorqueLimit)),
        3 => Ok(Some(Fault::VelocityLimit)),
        4 => Ok(Some(Fault::PositionLimit)),
        _ => Err(DecodeError::InvalidFault),
    }
}

pub open spec fn spec_bool_to_u8(value: bool) -> u8 {
    if value {
        1
    } else {
        0
    }
}

pub fn bool_to_u8(value: bool) -> (v: u8)
    ensures
        v == spec_bool_to_u8(value),
{
    if value {
        1
    } else {
        0
    }
}

/// The seven safety flags packed into bits 0 to 6, in field order.
pub open spec fn spec_output_safety_flags_to_u8(status: OutputSafetyStatus) -> u8 {
    (spec_bool_to_u8(status.output_allowed) + 2 * spec_bool_to_u8(status.command_blocked) + 4
        * spec_bool_to_u8(status.bus_blocked) + 8 * spec_bool_to_u8(status.driver_not_enabled)
        + 16 * spec_bool_to_u8(status.driver_fault_latched) + 32 * spec_bool_to_u8(
        status.controller_faulted,
    ) + 64 * spec_bool_to_u8(status.host_timed_out)) as u8
}

/// Flags unpacked from bits 0 to 6; the high bit is not a known flag.
pub open spec fn spec_output_safety_flags_from_u8(value: u8) -> Result<
    OutputSafetyStatus,
    DecodeError,
> {
    if value >= 128 {
        Err(DecodeError::InvalidOutputSafetyFlags)
    } else {
        Ok(
            OutputSafetyStatus {
                output_allowed: value % 2 == 1,
                command_blocked: (value / 2) % 2 == 1,
                bus_blocked: (value / 4) % 2 == 1,
                driver_not_enabled: (value / 8) % 2 == 1,
                driver_fault_latched: (value / 16) % 2 == 1,
                controller_faulted: (value / 32) % 2 == 1,
                host_timed_out: (value / 64) % 2 == 1,
            },
        )
    }
}

pub fn output_safety_flags_to_u8(status: OutputSafetyStatus) -> (v: u8)
    ensures
        v == spec_output_safety_flags_to_u8(status),
        v < 128,
{
    let b0 = bool_to_u8(status.output_allowed);
    let b1 = bool_to_u8(status.command_blocked);
    let b2 = bool_to_u8(status.bus_blocked);
    let b3 = bool_to_u8(status.driver_not_enabled);
    let b4 = bool_to_u8(status.driver_fault_latched);
    let b5 = bool_to_u8(status.controller_faulted);
    let b6 = bool_to_u8(status.host_timed_out);
    let v = b0 | (b1 << 1) | (b2 << 2) | (b3 << 3) | (b4 << 4) | (b5 << 5) | (b6 << 6);
    assert(v == b0 + 2 * b1 + 4 * b2 + 8 * b3 + 16 * b4 + 32 * b5 + 64 * b6) by (bit_vector)
        requires
            b0 <= 1 && b1 <= 1 && b2 <= 1 && b3 <= 1 && b4 <= 1 && b5 <= 1 && b6 <= 1,
            v == b0 | (b1 << 1) | (b2 << 2) | (b3 << 3) | (b4 << 4) | (b5 << 5) | (b6 << 6),
    ;
    v
}

pub fn output_safety_flags_from_u8(value: u8) -> (r: Result<OutputSafetyStatus, DecodeError>)
    ensures
        r == spec_output_safety_flags_from_u8(value),
{
    if value & 0x80 != 0 {
        assert(value >= 128) by (bit_vector)
            requires
                value & 0x80 != 0,
        ;
        return Err(DecodeError::InvalidOutputSafetyFlags);
    }
    assert(value < 128) by (bit_vector)
        requires
            value & 0x80 == 0,
    ;
    let s = OutputSafetyStatus {
        output_allowed: value & 1 != 0,
        command_blocked: value & 2 != 0,
        bus_blocked: value & 4 != 0,
        driver_not_enabled: value & 8 != 0,
        driver_fault_latched: value & 16 != 0,
        controller_faulted: value & 32 != 0,
        host_timed_out: value & 64 != 0,
    };
    assert((value & 1 != 0) == (value % 2 == 1) && (value & 2 != 0) == ((value / 2) % 2 == 1) && (
    value & 4 != 0) == ((value / 4) % 2 == 1) && (value & 8 != 0) == ((value / 8) % 2 == 1) && (
    value & 16 != 0) == ((value / 16) % 2 == 1) && (value & 32 != 0) == ((value / 32) % 2 == 1)
        && (value & 64 != 0) == ((value / 64) % 2 == 1)) by (bit_vector);
    Ok(s)
}

pub open spec fn spec_driver_command_to_u8(command: DriverCommand) -> u8 {
    match command {
        DriverCommand::Disable => 0,
        DriverCommand::ConfigureEnable => 1,
    }
}

pub open spec fn spec_driver_command_from_u8(value: u8) -> Result<DriverCommand, DecodeError> {
    if value == 0 {
        Ok(DriverCommand::Disable)
    } else if value == 1 {
        Ok(DriverCommand::ConfigureEnable)
    } else {
        Err(DecodeError::InvalidDriverCommand)
    }
}

pub fn driver_command_to_u8(command: DriverCommand) -> (v: u8)
    ensures
        v == spec_driver_command_to_u8(command),
{
    match command {
        DriverCommand::Disable => 0,
        DriverCommand::ConfigureEnable => 1,
    }
}

pub fn driver_command_from_u8(value: u8) -> (r: Result<DriverCommand, DecodeError>)
    ensures
        r == spec_driver_command_from_u8(value),
{
    match value {
        0 => Ok(DriverCommand::Disable),
        1 => Ok(DriverCommand::ConfigureEnable),
        _ => Err(DecodeError::InvalidDriverCommand),
    }
}

pub open spec fn spec_text_api_status_to_u8(status: TextApiResponseStatus) -> u8 {
    match status {
        TextApiResponseStatus::Success => 0,
        TextApiResponseStatus::ParseError => 1,
        TextApiResponseStatus::UnknownName => 2,
        TextApiResponseStatus::ReadOnly => 3,
        TextApiResponseStatus::NameIndexOutOfRange => 4,
        TextApiResponseStatus::ResponseTooLong => 5,
        TextApiResponseStatus::InvalidUtf8 => 6,
    }
}

pub open spec fn spec_text_api_status_from_u8(value: u8) -> Result<
    TextApiResponseStatus,
    DecodeError,
> {
    if value == 0 {
        Ok(TextApiResponseStatus::Success)
    } else if value == 1 {
        Ok(TextApiResponseStatus::ParseError)
    } else if value == 2 {
        Ok(TextApiResponseStatus::UnknownName)
    } else if value == 3 {
        Ok(TextApiResponseStatus::ReadOnly)
    } else if value == 4 {
        Ok(TextApiResponseStatus::NameIndexOutOfRange)
    } else if value == 5 {
        Ok(TextApiResponseStatus::ResponseTooLong)
    } else if value == 6 {
        Ok(TextApiResponseStatus::InvalidUtf8)
    } else {
        Err(DecodeError::InvalidTextApiStatus)
    }
}

pub fn text_api_status_to_u8(status: TextApiResponseStatus) -> (v: u8)
    ensures
        v == spec_text_api_status_to_u8(status),
{
    match status {
        TextApiResponseStatus::Success => 0,
        TextApiResponseStatus::ParseError => 1,
        TextApiResponseStatus::UnknownName => 2,
        TextApiResponseStatus::ReadOnly => 3,
        TextApiResponseStatus::NameIndexOutOfRange => 4,
        TextApiResponseStatus::ResponseTooLong => 5,
        TextApiResponseStatus::InvalidUtf8 => 6,
    }
}

pub fn text_api_status_from_u8(value: u8) -> (r: Result<TextApiResponseStatus, DecodeError>)
    ensures
        r == spec_text_api_status_from_u8(value),
{
    match value {
        0 => Ok(TextApiResponseStatus::Success),
        1 => Ok(TextApiResponseStatus::ParseError),
        2 => Ok(TextApiResponseStatus::UnknownName),
        3 => Ok(TextApiResponseStatus::ReadOnly),
        4 => Ok(TextApiResponseStatus::NameIndexOutOfRange),
        5 => Ok(TextApiResponseStatus::ResponseTooLong),
        6 => Ok(TextApiResponseStatus::InvalidUtf8),
        _ => Err(DecodeError::InvalidTextApiStatus),
    }
}

/// Every mode code decodes back to the mode, and every accepted byte is the
/// code of the mode it decodes to.
pub proof fn lemma_mode_code_roundtrip(mode: ControlMode, value: u8)
    ensures
        spec_mode_from_u8(spec_mode_to_u8(mode)) == Ok::<ControlMode, DecodeError>(mode),
        spec_mode_from_u8(value) matches Ok(m) ==> spec_mode_to_u8(m) == value,
{
}

/// Every fault code decodes back to the fault, and every accepted byte is the
/// code of the fault it decodes to.
pub proof fn lemma_fault_code_roundtrip(fault: Option<Fault>, value: u8)
    ensures
        spec_fault_from_u8(spec_fault_to_u8(fault)) == Ok::<Option<Fault>, DecodeError>(fault),
        spec_fault_from_u8(value) matches Ok(f) ==> spec_fault_to_u8(f) == value,
{
}

/// Every driver-command code decodes back to the command, and every accepted
/// byte is the code of the command it decodes to.
pub proof fn lemma_driver_command_code_roundtrip(command: DriverCommand, value: u8)
    ensures
        spec_driver_command_from_u8(spec_driver_command_to_u8(command)) == Ok::<
            DriverCommand,
            DecodeError,
        >(command),
        spec_driver_command_from_u8(value) matches Ok(c) ==> spec_driver_command_to_u8(c)
            == value,
{
}

/// Every status code decodes back to the status, and every accepted byte is
/// the code of the status it decodes to.
pub proof fn lemma_text_api_status_code_roundtrip(status: TextApiResponseStatus, value: u8)
    ensures
        spec_text_api_status_from_u8(spec_text_api_status_to_u8(status)) == Ok::<
            TextApiResponseStatus,
            DecodeError,
        >(status),
        spec_text_api_status_from_u8(value) matches Ok(s) ==> spec_text_api_status_to_u8(s)
            == value,
{
}

/// Packed safety flags unpack to the same flags, and every accepted byte is
/// the packing of the flags it unpacks to.
pub proof fn lemma_output_safety_flags_roundtrip(flags: OutputSafetyStatus, value: u8)
    ensures
        spec_output_safety_flags_from_u8(spec_output_safety_flags_to_u8(flags)) == Ok::<
            OutputSafetyStatus,
            DecodeError,
        >(flags),
        spec_output_safety_flags_from_u8(value) matches Ok(f) ==> spec_output_safety_flags_to_u8(f)
            == value,
{
    let v = spec_output_safety_flags_to_u8(flags);
    let b0 = spec_bool_to_u8(flags.output_allowed);
    let b1 = spec_bool_to_u8(flags.command_blocked);
    let b2 = spec_bool_to_u8(flags.bus_blocked);
    let b3 = spec_bool_to_u8(flags.driver_not_enabled);
    let b4 = spec_bool_to_u8(flags.driver_fault_latched);
    let b5 = spec_bool_to_u8(flags.controller_faulted);
    let b6 = spec_bool_to_u8(flags.host_timed_out);
    assert(v < 128 && v % 2 == b0 && (v / 2) % 2 == b1 && (v / 4) % 2 == b2 && (v / 8) % 2 == b3
        && (v / 16) % 2 == b4 && (v / 32) % 2 == b5 && (v / 64) % 2 == b6) by (bit_vector)
        requires
            b0 <= 1 && b1 <= 1 && b2 <= 1 && b3 <= 1 && b4 <= 1 && b5 <= 1 && b6 <= 1,
            v == (b0 + 2 * b1 + 4 * b2 + 8 * b3 + 16 * b4 + 32 * b5 + 64 * b6) as u8,
    ;
    if value < 128 {
        let c0 = spec_bool_to_u8(value % 2 == 1);
        let c1 = spec_bool_to_u8((value / 2) % 2 == 1);
        let c2 = spec_bool_to_u8((value / 4) % 2 == 1);
        let c3 = spec_bool_to_u8((value / 8) % 2 == 1);
        let c4 = spec_bool_to_u8((value / 16) % 2 == 1);
        let c5 = spec_bool_to_u8((value / 32) % 2 == 1);
        let c6 = spec_bool_to_u8((value / 64) % 2 == 1);
        assert(value == (c0 + 2 * c1 + 4 * c2 + 8 * c3 + 16 * c4 + 32 * c5 + 64 * c6) as u8)
            by (bit_vector)
            requires
                value < 128,
                c0 == value % 2,
                c1 == (value / 2) % 2,
                c2 == (value / 4) % 2,
                c3 == (value / 8) % 2,
                c4 == (value / 16) % 2,
                c5 == (value / 32) % 2,
                c6 == (value / 64) % 2,
        ;
    }
}


/// The wire code of each control mode: Disabled 0, Torque 1, Velocity 2,
/// Position 3, ClearFaults 250. Each of these bytes decodes to its mode and
/// every other byte is refused as an invalid mode.
pub proof fn lemma_mode_wire_codes(value: u8)
    ensures
        spec_mode_to_u8(ControlMode::Disabled) == 0,
        spec_mode_to_u8(ControlMode::Torque) == 1,
        spec_mode_to_u8(ControlMode::Velocity) == 2,
        spec_mode_to_u8(ControlMode::Position) == 3,
        spec_mode_to_u8(ControlMode::ClearFaults) == 250,
        value == 0 <==> spec_mode_from_u8(value) == Ok::<ControlMode, DecodeError>(
            ControlMode::Disabled,
        ),
        value == 1 <==> spec_mode_from_u8(value) == Ok::<ControlMode, DecodeError>(
            ControlMode::Torque,
        ),
        value == 2 <==> spec_mode_from_u8(value) == Ok::<ControlMode, DecodeError>(
            ControlMode::Velocity,
        ),
        value == 3 <==> spec_mode_from_u8(value) == Ok::<ControlMode, DecodeError>(
            ControlMode::Position,
        ),
        value == 250 <==> spec_mode_from_u8(value) == Ok::<ControlMode, DecodeError>(
            ControlMode::ClearFaults,
        ),
        !(value == 0 || value == 1 || value == 2 || value == 3 || value == 250) <==> spec_mode_from_u8(
            value,
        ) == Err::<ControlMode, DecodeError>(DecodeError::InvalidMode),
{
}

/// The wire code of each fault: none 0, CommandNotFinite 1, TorqueLimit 2,
/// VelocityLimit 3, PositionLimit 4. Each of these bytes decodes to its
/// fault and every other byte is refused as an invalid fault.
pub proof fn lemma_fault_wire_codes(value: u8)
    ensures
        spec_fault_to_u8(None) == 0,
        spec_fault_to_u8(Some(Fault::CommandNotFinite)) == 1,
        spec_fault_to_u8(Some(Fault::TorqueLimit)) == 2,
        spec_fault_to_u8(Some(Fault::VelocityLimit)) == 3,
        spec_fault_to_u8(Some(Fault::PositionLimit)) == 4,
        value == 0 <==> spec_fault_from_u8(value) == Ok::<Option<Fault>, DecodeError>(None),
        value == 1 <==> spec_fault_from_u8(value) == Ok::<Option<Fault>, DecodeError>(
            Some(Fault::CommandNotFinite),
        ),
        value == 2 <==> spec_fault_from_u8(value) == Ok::<Option<Fault>, DecodeError>(
            Some(Fault::TorqueLimit),
        ),
        value == 3 <==> spec_fault_from_u8(value) == Ok::<Option<Fault>, DecodeError>(
            Some(Fault::VelocityLimit),
        ),
        value == 4 <==> spec_fault_from_u8(value) == Ok::<Option<Fault>, DecodeError>(
            Some(Fault::PositionLimit),
        ),
        value > 4 <==> spec_fault_from_u8(value) == Err::<Option<Fault>, DecodeError>(
            DecodeError::InvalidFault,
        ),
{
}

/// The wire code of each driver command: Disable 0, ConfigureEnable 1; every
/// other byte is refused as an invalid driver command.
pub proof fn lemma_driver_command_wire_codes(value: u8)
    ensures
        spec_driver_command_to_u8(DriverCommand::Disable) == 0,
        spec_driver_command_to_u8(DriverCommand::ConfigureEnable) == 1,
        value == 0 <==> spec_driver_command_from_u8(value) == Ok::<DriverCommand, DecodeError>(
            DriverCommand::Disable,
        ),
        value == 1 <==> spec_driver_command_from_u8(value) == Ok::<DriverCommand, DecodeError>(
            DriverCommand::ConfigureEnable,
        ),
        value > 1 <==> spec_driver_command_from_u8(value) == Err::<DriverCommand, DecodeError>(
            DecodeError::InvalidDriverCommand,
        ),
{
}

/// The wire code of each text API outcome: success 0, parse error 1,
/// unknown name 2, read-only 3, name index out of range 4, response too
/// long 5, invalid UTF-8 6; every other byte is refused as an invalid
/// status.
pub proof fn lemma_text_api_status_wire_codes(value: u8)
    ensures
        spec_text_api_status_to_u8(TextApiResponseStatus::Success) == 0,
        spec_text_api_status_to_u8(TextApiResponseStatus::ParseError) == 1,
        spec_text_api_status_to_u8(TextApiResponseStatus::UnknownName) == 2,
        spec_text_api_status_to_u8(TextApiResponseStatus::ReadOnly) == 3,
        spec_text_api_status_to_u8(TextApiResponseStatus::NameIndexOutOfRange) == 4,
        spec_text_api_status_to_u8(TextApiResponseStatus::ResponseTooLong) == 5,
        spec_text_api_status_to_u8(TextApiResponseStatus::InvalidUtf8) == 6,
        value == 0 <==> spec_text_api_status_from_u8(value) == Ok::<
            TextApiResponseStatus,
            DecodeError,
        >(TextApiResponseStatus::Success),
        value == 1 <==> spec_text_api_status_from_u8(value) == Ok::<
            TextApiResponseStatus,
            DecodeError,
        >(TextApiResponseStatus::ParseError),
        value == 2 <==> spec_text_api_status_from_u8(value) == Ok::<
            TextApiResponseStatus,
            DecodeError,
        >(TextApiResponseStatus::UnknownName),
        value == 3 <==> spec_text_api_status_from_u8(value) == Ok::<
            TextApiResponseStatus,
            DecodeError,
        >(TextApiResponseStatus::ReadOnly),
        value == 4 <==> spec_text_api_status_from_u8(value) == Ok::<
            TextApiResponseStatus,
            DecodeError,
        >(TextApiResponseStatus::NameIndexOutOfRange),
        value == 5 <==> spec_text_api_status_from_u8(value) == Ok::<
            TextApiResponseStatus,
            DecodeError,
        >(TextApiResponseStatus::ResponseTooLong),
        value == 6 <==> spec_text_api_status_from_u8(value) == Ok::<
            TextApiResponseStatus,
            DecodeError,
        >(TextApiResponseStatus::InvalidUtf8),
        value > 6 <==> spec_text_api_status_from_u8(value) == Err::<
            TextApiResponseStatus,
            DecodeError,
        >(DecodeError::InvalidTextApiStatus),
{
}

/// The bit of each safety flag: output allowed 0, command blocked 1, bus
/// blocked 2, driver not enabled 3, driver fault latched 4, controller
/// faulted 5, host timed out 6. A byte with the top bit clear unpacks to
/// the flags of its set bits; one with the top bit set is refused.
pub proof fn lemma_output_safety_flag_bits(flags: OutputSafetyStatus, value: u8)
    ensures
        (spec_output_safety_flags_to_u8(flags) & 1 != 0) == flags.output_allowed,
        (spec_output_safety_flags_to_u8(flags) & 2 != 0) == flags.command_blocked,
        (spec_output_safety_flags_to_u8(flags) & 4 != 0) == flags.bus_blocked,
        (spec_output_safety_flags_to_u8(flags) & 8 != 0) == flags.driver_not_enabled,
        (spec_output_safety_flags_to_u8(flags) & 16 != 0) == flags.driver_fault_latched,
        (spec_output_safety_flags_to_u8(flags) & 32 != 0) == flags.controller_faulted,
        (spec_output_safety_flags_to_u8(flags) & 64 != 0) == flags.host_timed_out,
        spec_output_safety_flags_to_u8(flags) & 128 == 0,
        value & 128 != 0 <==> spec_output_safety_flags_from_u8(value) == Err::<
            OutputSafetyStatus,
            DecodeError,
        >(DecodeError::InvalidOutputSafetyFlags),
        value & 128 == 0 ==> spec_output_safety_flags_from_u8(value) == Ok::<
            OutputSafetyStatus,
            DecodeError,
        >(
            OutputSafetyStatus {
                output_allowed: value & 1 != 0,
                command_blocked: value & 2 != 0,
                bus_blocked: value & 4 != 0,
                driver_not_enabled: value & 8 != 0,
                driver_fault_latched: value & 16 != 0,
                controller_faulted: value & 32 != 0,
                host_timed_out: value & 64 != 0,
            },
        ),
{
    let v = spec_output_safety_flags_to_u8(flags);
    let b0 = spec_bool_to_u8(flags.output_allowed);
    let b1 = spec_bool_to_u8(flags.command_blocked);
    let b2 = spec_bool_to_u8(flags.bus_blocked);
    let b3 = spec_bool_to_u8(flags.driver_not_enabled);
    let b4 = spec_bool_to_u8(flags.driver_fault_latched);
    let b5 = spec_bool_to_u8(flags.controller_faulted);
    let b6 = spec_bool_to_u8(flags.host_timed_out);
    assert((v & 1 != 0) == (b0 == 1) && (v & 2 != 0) == (b1 == 1) && (v & 4 != 0) == (b2 == 1)
        && (v & 8 != 0) == (b3 == 1) && (v & 16 != 0) == (b4 == 1) && (v & 32 != 0) == (b5 == 1)
        && (v & 64 != 0) == (b6 == 1) && v & 128 == 0) by (bit_vector)
        requires
            b0 <= 1 && b1 <= 1 && b2 <= 1 && b3 <= 1 && b4 <= 1 && b5 <= 1 && b6 <= 1,
            v == (b0 + 2 * b1 + 4 * b2 + 8 * b3 + 16 * b4 + 32 * b5 + 64 * b6) as u8,
    ;
    assert((value & 128 != 0) == (value >= 128) && (value & 1 != 0) == (value % 2 == 1) && (value
        & 2 != 0) == ((value / 2) % 2 == 1) && (value & 4 != 0) == ((value / 4) % 2 == 1) && (value
        & 8 != 0) == ((value / 8) % 2 == 1) && (value & 16 != 0) == ((value / 16) % 2 == 1) && (
    value & 32 != 0) == ((value / 32) % 2 == 1) && (value & 64 != 0) == ((value / 64) % 2 == 1))
        by (bit_vector);
}

// ----- packets ----------------------------------------------------------------

/// A motor command. The three set-points are IEEE-754 single-precision
/// values carried as their bit patterns.
#[derive(Clone, Copy, Debug, PartialEq, Eq, Structural)]
pub struct CommandPacket {
    pub sequence: u8,
    pub mode: ControlMode,
    pub torque_bits: u32,
    pub velocity_bits: u32,
    pub position_bits: u32,
}

impl CommandPacket {
    /// `[sequence, mode, torque, velocity, position]`, values little-endian.
    pub open spec fn spec_encode(self) -> Seq<u8> {
        seq![self.sequence, spec_mode_to_u8(self.mode)] + spec_u32_le(self.torque_bits)
            + spec_u32_le(self.velocity_bits) + spec_u32_le(self.position_bits)
    }

    pub open spec fn spec_decode(s: Seq<u8>) -> Result<CommandPacket, DecodeError> {
        if s.len() != COMMAND_PACKET_LEN {
            Err(DecodeError::InvalidLength)
        } else {
            match spec_mode_from_u8(s[1]) {
                Err(e) => Err(e),
                Ok(mode) => Ok(
                    CommandPacket {
                        sequence: s[0],
                        mode,
                        torque_bits: spec_le_u32(s.subrange(2, 6)),
                        velocity_bits: spec_le_u32(s.subrange(6, 10)),
                        position_bits: spec_le_u32(s.subrange(10, 14)),
                    },
                ),
            }
        }
    }

    pub fn encode(self) -> (out: [u8; COMMAND_PACKET_LEN])
        ensures
            out@ == self.spec_encode(),
    {
        let t = u32_to_le(self.torque_bits);
        let v = u32_to_le(self.velocity_bits);
        let p = u32_to_le(self.position_bits);
        let out = [
            self.sequence,
            mode_to_u8(self.mode),
            t[0],
            t[1],
            t[2],
            t[3],
            v[0],
            v[1],
            v[2],
            v[3],
            p[0],
            p[1],
            p[2],
            p[3],
        ];
        assert(out@ =~= self.spec_encode());
        out
    }

    pub fn decode(input: &[u8]) -> (r: Result<Self, DecodeError>)
        ensures
            r == Self::spec_decode(input@),
    {
        if input.len() != COMMAND_PACKET_LEN {
            return Err(DecodeError::InvalidLength);
        }
        let mode = match mode_from_u8(input[1]) {
            Ok(m) => m,
            Err(e) => return Err(e),
        };
        let torque_bits = le_to_u32(input[2], input[3], input[4], input[5]);
        let velocity_bits = le_to_u32(input[6], input[7], input[8], input[9]);
        let position_bits = le_to_u32(input[10], input[11], input[12], input[13]);
        assert(input@.subrange(2, 6) =~= seq![input@[2], input@[3], input@[4], input@[5]]);
        assert(input@.subrange(6, 10) =~= seq![input@[6], input@[7], input@[8], input@[9]]);
        assert(input@.subrange(10, 14) =~= seq![input@[10], input@[11], input@[12], input@[13]]);
        Ok(CommandPacket { sequence: input[0], mode, torque_bits, velocity_bits, position_bits })
    }
}

/// Decoding an encoded command gives it back; every accepted byte string is
/// the encoding of what it decodes to.
pub proof fn lemma_command_packet_roundtrip(p: CommandPacket, s: Seq<u8>)
    ensures
        CommandPacket::spec_decode(p.spec_encode()) == Ok::<CommandPacket, DecodeError>(p),
        CommandPacket::spec_decode(s) matches Ok(q) ==> q.spec_encode() == s,
{
    let e = p.spec_encode();
    lemma_mode_code_roundtrip(p.mode, e[1]);
    lemma_le_u32_roundtrip(p.torque_bits, s.subrange(2, 6));
    lemma_le_u32_roundtrip(p.velocity_bits, s.subrange(6, 10));
    lemma_le_u32_roundtrip(p.position_bits, s.subrange(10, 14));
    assert(e.subrange(2, 6) =~= spec_u32_le(p.torque_bits));
    assert(e.subrange(6, 10) =~= spec_u32_le(p.velocity_bits));
    assert(e.subrange(10, 14) =~= spec_u32_le(p.position_bits));
    if let Ok(q) = CommandPacket::spec_decode(s) {
        lemma_mode_code_roundtrip(q.mode, s[1]);
        assert(q.spec_encode() =~= s);
    }
}

/// A command carries its sequence in byte 0 and its mode in byte 1, as the
/// mode's wire code: Disabled 0, Torque 1, Velocity 2, Position 3,
/// ClearFaults 250. A 14-byte packet decodes exactly when its mode byte is
/// one of these, to the mode of that code.
pub proof fn lemma_command_mode_byte(p: CommandPacket, s: Seq<u8>)
    ensures
        p.spec_encode().len() == COMMAND_PACKET_LEN,
        p.spec_encode()[0] == p.sequence,
        p.mode == ControlMode::Disabled <==> p.spec_encode()[1] == 0,
        p.mode == ControlMode::Torque <==> p.spec_encode()[1] == 1,
        p.mode == ControlMode::Velocity <==> p.spec_encode()[1] == 2,
        p.mode == ControlMode::Position <==> p.spec_encode()[1] == 3,
        p.mode == ControlMode::ClearFaults <==> p.spec_encode()[1] == 250,
        s.len() == COMMAND_PACKET_LEN ==> (CommandPacket::spec_decode(s) is Ok <==> (s[1] == 0
            || s[1] == 1 || s[1] == 2 || s[1] == 3 || s[1] == 250)),
        CommandPacket::spec_decode(s) matches Ok(q) ==> {
            &&& q.sequence == s[0]
            &&& (q.mode == ControlMode::Disabled <==> s[1] == 0)
            &&& (q.mode == ControlMode::Torque <==> s[1] == 1)
            &&& (q.mode == ControlMode::Velocity <==> s[1] == 2)
            &&& (q.mode == ControlMode::Position <==> s[1] == 3)
            &&& (q.mode == ControlMode::ClearFaults <==> s[1] == 250)
        },
{
    lemma_mode_wire_codes(0);
    if s.len() == COMMAND_PACKET_LEN {
        lemma_mode_wire_codes(s[1]);
    }
}

/// After the sequence and mode bytes a command carries its torque in bytes
/// 2 to 5, its velocity in bytes 6 to 9 and its position in bytes 10 to 13,
/// each least significant byte first; decoding reads each set-point back
/// from its own four bytes.
pub proof fn lemma_command_setpoint_bytes(p: CommandPacket, s: Seq<u8>)
    ensures
        p.spec_encode()[2] == p.torque_bits % 0x100,
        p.spec_encode()[5] == p.torque_bits / 0x100_0000,
        p.spec_encode()[6] == p.velocity_bits % 0x100,
        p.spec_encode()[9] == p.velocity_bits / 0x100_0000,
        p.spec_encode()[10] == p.position_bits % 0x100,
        p.spec_encode()[13] == p.position_bits / 0x100_0000,
        CommandPacket::spec_decode(s) matches Ok(q) ==> {
            &&& q.torque_bits == s[2] + 0x100 * s[3] + 0x1_0000 * s[4] + 0x100_0000 * s[5]
            &&& q.velocity_bits == s[6] + 0x100 * s[7] + 0x1_0000 * s[8] + 0x100_0000 * s[9]
            &&& q.position_bits == s[10] + 0x100 * s[11] + 0x1_0000 * s[12] + 0x100_0000 * s[13]
        },
{
    lemma_le_byte_order(0, p.torque_bits, 0, Seq::<u8>::empty());
    lemma_le_byte_order(0, p.velocity_bits, 0, Seq::<u8>::empty());
    lemma_le_byte_order(0, p.position_bits, 0, Seq::<u8>::empty());
    if CommandPacket::spec_decode(s) is Ok {
        lemma_le_byte_order(0, 0, 0, s.subrange(2, 6));
        lemma_le_byte_order(0, 0, 0, s.subrange(6, 10));
        lemma_le_byte_order(0, 0, 0, s.subrange(10, 14));
    }
}

/// A status report. The three measurements are IEEE-754 single-precision
/// values carried as their bit patterns.
#[derive(Clone, Copy, Debug, PartialEq, Eq, Structural)]
pub struct StatusPacket {
    pub sequence: u8,
    pub fault: Option<Fault>,
    pub torque_bits: u32,
    pub velocity_bits: u32,
    pub position_bits: u32,
}

impl StatusPacket {
    /// `[sequence, fault, torque, velocity, position]`, values little-endian.
    pub open spec fn spec_encode(self) -> Seq<u8> {
        seq![self.sequence, spec_fault_to_u8(self.fault)] + spec_u32_le(self.torque_bits)
            + spec_u32_le(self.velocity_bits) + spec_u32_le(self.position_bits)
    }

    pub open spec fn spec_decode(s: Seq<u8>) -> Result<StatusPacket, DecodeError> {
        if s.len() != STATUS_PACKET_LEN {
            Err(DecodeError::InvalidLength)
        } else {
            match spec_fault_from_u8(s[1]) {
                Err(e) => Err(e),
                Ok(fault) => Ok(
                    StatusPacket {
                        sequence: s[0],
                        fault,
                        torque_bits: spec_le_u32(s.subrange(2, 6)),
                        velocity_bits: spec_le_u32(s.subrange(6, 10)),
                        position_bits: spec_le_u32(s.subrange(10, 14)),
                    },
                ),
            }
        }
    }

    pub fn encode(self) -> (out: [u8; STATUS_PACKET_LEN])
        ensures
            out@ == self.spec_encode(),
    {
        let t = u32_to_le(self.torque_bits);
        let v = u32_to_le(self.velocity_bits);
        let p = u32_to_le(self.position_bits);
        let out = [
            self.sequence,
            fault_to_u8(self.fault),
            t[0],
            t[1],
            t[2],
            t[3],
            v[0],
            v[1],
            v[2],
            v[3],
            p[0],
            p[1],
            p[2],
            p[3],
        ];
        assert(out@ =~= self.spec_encode());
        out
    }

    pub fn decode(input: &[u8]) -> (r: Result<Self, DecodeError>)
        ensures
            r == Self::spec_decode(input@),
    {
        if input.len() != STATUS_PACKET_LEN {
            return Err(DecodeError::InvalidLength);
        }
        let fault = match fault_from_u8(input[1]) {
            Ok(f) => f,
            Err(e) => return Err(e),
        };
        let torque_bits = le_to_u32(input[2], input[3], input[4], input[5]);
        let velocity_bits = le_to_u32(input[6], input[7], input[8], input[9]);
        let position_bits = le_to_u32(input[10], input[11], input[12], input[13]);
        assert(input@.subrange(2, 6) =~= seq![input@[2], input@[3], input@[4], input@[5]]);
        assert(input@.subrange(6, 10) =~= seq![input@[6], input@[7], input@[8], input@[9]]);
        assert(input@.subrange(10, 14) =~= seq![input@[10], input@[11], input@[12], input@[13]]);
        Ok(StatusPacket { sequence: input[0], fault, torque_bits, velocity_bits, position_bits })
    }
}

/// Decoding an encoded status gives it back; every accepted byte string is
/// the encoding of what it decodes to.
pub proof fn lemma_status_packet_roundtrip(p: StatusPacket, s: Seq<u8>)
    ensures
        StatusPacket::spec_decode(p.spec_encode()) == Ok::<StatusPacket, DecodeError>(p),
        StatusPacket::spec_decode(s) matches Ok(q) ==> q.spec_encode() == s,
{
    let e = p.spec_encode();
    lemma_fault_code_roundtrip(p.fault, e[1]);
    lemma_le_u32_roundtrip(p.torque_bits, s.subrange(2, 6));
    lemma_le_u32_roundtrip(p.velocity_bits, s.subrange(6, 10));
    lemma_le_u32_roundtrip(p.position_bits, s.subrange(10, 14));
    assert(e.subrange(2, 6) =~= spec_u32_le(p.torque_bits));
    assert(e.subrange(6, 10) =~= spec_u32_le(p.velocity_bits));
    assert(e.subrange(10, 14) =~= spec_u32_le(p.position_bits));
    if let Ok(q) = StatusPacket::spec_decode(s) {
        lemma_fault_code_roundtrip(q.fault, s[1]);
        assert(q.spec_encode() =~= s);
    }
}

/// A status carries its sequence in byte 0 and its fault in byte 1, as the
/// fault's wire code: none 0, CommandNotFinite 1, TorqueLimit 2,
/// VelocityLimit 3, PositionLimit 4. A 14-byte packet decodes exactly when
/// its fault byte is one of these, to the fault of that code.
pub proof fn lemma_status_fault_byte(p: StatusPacket, s: Seq<u8>)
    ensures
        p.spec_encode().len() == STATUS_PACKET_LEN,
        p.spec_encode()[0] == p.sequence,
        p.fault == None::<Fault> <==> p.spec_encode()[1] == 0,
        p.fault == Some(Fault::CommandNotFinite) <==> p.spec_encode()[1] == 1,
        p.fault == Some(Fault::TorqueLimit) <==> p.spec_encode()[1] == 2,
        p.fault == Some(Fault::VelocityLimit) <==> p.spec_encode()[1] == 3,
        p.fault == Some(Fault::PositionLimit) <==> p.spec_encode()[1] == 4,
        s.len() == STATUS_PACKET_LEN ==> (StatusPacket::spec_decode(s) is Ok <==> s[1] <= 4),
        StatusPacket::spec_decode(s) matches Ok(q) ==> {
            &&& q.sequence == s[0]
            &&& (q.fault == None::<Fault> <==> s[1] == 0)
            &&& (q.fault == Some(Fault::CommandNotFinite) <==> s[1] == 1)
            &&& (q.fault == Some(Fault::TorqueLimit) <==> s[1] == 2)
            &&& (q.fault == Some(Fault::VelocityLimit) <==> s[1] == 3)
            &&& (q.fault == Some(Fault::PositionLimit) <==> s[1] == 4)
        },
{
    lemma_fault_wire_codes(0);
    if s.len() == STATUS_PACKET_LEN {
        lemma_fault_wire_codes(s[1]);
    }
}

/// A DRV8323S command from the host.
#[derive(Clone, Copy, Debug, PartialEq, Eq, Structural)]
pub struct DriverCommandPacket {
    pub sequence: u8,
    pub command: DriverCommand,
}

impl DriverCommandPacket {
    pub open spec fn spec_encode(self) -> Seq<u8> {
        seq![self.sequence, spec_driver_command_to_u8(self.command)]
    }

    pub open spec fn spec_decode(s: Seq<u8>) -> Result<DriverCommandPacket, DecodeError> {
        if s.len() != DRIVER_COMMAND_PACKET_LEN {
            Err(DecodeError::InvalidLength)
        } else {
            match spec_driver_command_from_u8(s[1]) {
                Err(e) => Err(e),
                Ok(command) => Ok(DriverCommandPacket { sequence: s[0], command }),
            }
        }
    }

    pub fn encode(self) -> (out: [u8; DRIVER_COMMAND_PACKET_LEN])
        ensures
            out@ == self.spec_encode(),
    {
        let out = [self.sequence, driver_command_to_u8(self.command)];
        assert(out@ =~= self.spec_encode());
        out
    }

    pub fn decode(input: &[u8]) -> (r: Result<Self, DecodeError>)
        ensures
            r == Self::spec_decode(input@),
    {
        if input.len() != DRIVER_COMMAND_PACKET_LEN {
            return Err(DecodeError::InvalidLength);
        }
        match driver_command_from_u8(input[1]) {
            Ok(command) => Ok(DriverCommandPacket { sequence: input[0], command }),
            Err(e) => Err(e),
        }
    }
}

/// Decoding an encoded driver command gives it back; every accepted byte
/// string is the encoding of what it decodes to.
pub proof fn lemma_driver_command_packet_roundtrip(p: DriverCommandPacket, s: Seq<u8>)
    ensures
        DriverCommandPacket::spec_decode(p.spec_encode()) == Ok::<DriverCommandPacket, DecodeError>(
            p,
        ),
        DriverCommandPacket::spec_decode(s) matches Ok(q) ==> q.spec_encode() == s,
{
    lemma_driver_command_code_roundtrip(p.command, 0);
    if let Ok(q) = DriverCommandPacket::spec_decode(s) {
        lemma_driver_command_code_roundtrip(q.command, s[1]);
        assert(q.spec_encode() =~= s);
    }
}

/// The DRV8323S's configuration result.
#[derive(Clone, Copy, Debug, PartialEq, Eq, Structural)]
pub struct DriverReportPacket {
    pub sequence: u8,
    pub configured: bool,
    pub verify_error_mask: u16,
    pub transfer_error_mask: u16,
    pub status_before: u32,
    pub status_after: u32,
}

impl DriverReportPacket {
    pub open spec fn spec_encode(self) -> Seq<u8> {
        seq![self.sequence, spec_bool_to_u8(self.configured)] + spec_u16_le(self.verify_error_mask)
            + spec_u16_le(self.transfer_error_mask) + spec_u32_le(self.status_before) + spec_u32_le(
            self.status_after,
        )
    }

    /// Any non-zero byte reads as `configured`.
    pub open spec fn spec_decode(s: Seq<u8>) -> Result<DriverReportPacket, DecodeError> {
        if s.len() != DRIVER_REPORT_PACKET_LEN {
            Err(DecodeError::InvalidLength)
        } else {
            Ok(
                DriverReportPacket {
                    sequence: s[0],
                    configured: s[1] != 0,
                    verify_error_mask: spec_le_u16(s.subrange(2, 4)),
                    transfer_error_mask: spec_le_u16(s.subrange(4, 6)),
                    status_before: spec_le_u32(s.subrange(6, 10)),
                    status_after: spec_le_u32(s.subrange(10, 14)),
                },
            )
        }
    }

    pub fn encode(self) -> (out: [u8; DRIVER_REPORT_PACKET_LEN])
        ensures
            out@ == self.spec_encode(),
    {
        let v = u16_to_le(self.verify_error_mask);
        let t = u16_to_le(self.transfer_error_mask);
        let b = u32_to_le(self.status_before);
        let a = u32_to_le(self.status_after);
        let out = [
            self.sequence,
            bool_to_u8(self.configured),
            v[0],
            v[1],
            t[0],
            t[1],
            b[0],
            b[1],
            b[2],
            b[3],
            a[0],
            a[1],
            a[2],
            a[3],
        ];
        assert(out@ =~= self.spec_encode());
        out
    }

    pub fn decode(input: &[u8]) -> (r: Result<Self, DecodeError>)
        ensures
            r == Self::spec_decode(input@),
    {
        if input.len() != DRIVER_REPORT_PACKET_LEN {
            return Err(DecodeError::InvalidLength);
        }
        let verify_error_mask = le_to_u16(input[2], input[3]);
        let transfer_error_mask = le_to_u16(input[4], input[5]);
        let status_before = le_to_u32(input[6], input[7], input[8], input[9]);
        let status_after = le_to_u32(input[10], input[11], input[12], input[13]);
        assert(input@.subrange(2, 4) =~= seq![input@[2], input@[3]]);
        assert(input@.subrange(4, 6) =~= seq![input@[4], input@[5]]);
        assert(input@.subrange(6, 10) =~= seq![input@[6], input@[7], input@[8], input@[9]]);
        assert(input@.subrange(10, 14) =~= seq![input@[10], input@[11], input@[12], input@[13]]);
        Ok(
            DriverReportPacket {
                sequence: input[0],
                configured: input[1] != 0,
                verify_error_mask,
                transfer_error_mask,
                status_before,
                status_after,
            },
        )
    }
}

/// Decoding an encoded driver report gives it back; an accepted byte string
/// whose flag byte is 0 or 1 is the encoding of what it decodes to.
pub proof fn lemma_driver_report_packet_roundtrip(p: DriverReportPacket, s: Seq<u8>)
    ensures
        DriverReportPacket::spec_decode(p.spec_encode()) == Ok::<DriverReportPacket, DecodeError>(
            p,
        ),
        DriverReportPacket::spec_decode(s) matches Ok(q) ==> (s[1] <= 1 <==> q.spec_encode() == s),
{
    let e = p.spec_encode();
    lemma_le_u16_roundtrip(p.verify_error_mask, s.subrange(2, 4));
    lemma_le_u16_roundtrip(p.transfer_error_mask, s.subrange(4, 6));
    lemma_le_u32_roundtrip(p.status_before, s.subrange(6, 10));
    lemma_le_u32_roundtrip(p.status_after, s.subrange(10, 14));
    assert(e.subrange(2, 4) =~= spec_u16_le(p.verify_error_mask));
    assert(e.subrange(4, 6) =~= spec_u16_le(p.transfer_error_mask));
    assert(e.subrange(6, 10) =~= spec_u32_le(p.status_before));
    assert(e.subrange(10, 14) =~= spec_u32_le(p.status_after));
    if let Ok(q) = DriverReportPacket::spec_decode(s) {
        if s[1] <= 1 {
            assert(q.spec_encode() =~= s);
        } else {
            assert(q.spec_encode()[1] != s[1]);
        }
    }
}

/// The output gate status, as flags.
#[derive(Clone, Copy, Debug, PartialEq, Eq, Structural)]
pub struct OutputSafetyPacket {
    pub sequence: u8,
    pub status: OutputSafetyStatus,
}

impl OutputSafetyPacket {
    pub open spec fn spec_encode(self) -> Seq<u8> {
        seq![self.sequence, spec_output_safety_flags_to_u8(self.status)]
    }

    pub open spec fn spec_decode(s: Seq<u8>) -> Result<OutputSafetyPacket, DecodeError> {
        if s.len() != OUTPUT_SAFETY_PACKET_LEN {
            Err(DecodeError::InvalidLength)
        } else {
            match spec_output_safety_flags_from_u8(s[1]) {
                Err(e) => Err(e),
                Ok(status) => Ok(OutputSafetyPacket { sequence: s[0], status }),
            }
        }
    }

    pub fn encode(self) -> (out: [u8; OUTPUT_SAFETY_PACKET_LEN])
        ensures
            out@ == self.spec_encode(),
    {
        let out = [self.sequence, output_safety_flags_to_u8(self.status)];
        assert(out@ =~= self.spec_encode());
        out
    }

    pub fn decode(input: &[u8]) -> (r: Result<Self, DecodeError>)
        ensures
            r == Self::spec_decode(input@),
    {
        if input.len() != OUTPUT_SAFETY_PACKET_LEN {
            return Err(DecodeError::InvalidLength);
        }
        match output_safety_flags_from_u8(input[1]) {
            Ok(status) => Ok(OutputSafetyPacket { sequence: input[0], status }),
            Err(e) => Err(e),
        }
    }
}

/// Decoding an encoded safety packet gives it back; every accepted byte
/// string is the encoding of what it decodes to.
pub proof fn lemma_output_safety_packet_roundtrip(p: OutputSafetyPacket, s: Seq<u8>)
    ensures
        OutputSafetyPacket::spec_decode(p.spec_encode()) == Ok::<OutputSafetyPacket, DecodeError>(
            p,
        ),
        OutputSafetyPacket::spec_decode(s) matches Ok(q) ==> q.spec_encode() == s,
{
    lemma_output_safety_flags_roundtrip(p.status, 0);
    if let Ok(q) = OutputSafetyPacket::spec_decode(s) {
        lemma_output_safety_flags_roundtrip(q.status, s[1]);
        assert(q.spec_encode() =~= s);
    }
}

/// The raw bus-voltage ADC reading.
#[derive(Clone, Copy, Debug, PartialEq, Eq, Structural)]
pub struct BusVoltagePacket {
    pub sequence: u8,
    pub raw: u16,
}

impl BusVoltagePacket {
    pub open spec fn spec_encode(self) -> Seq<u8> {
        seq![self.sequence] + spec_u16_le(self.raw)
    }

    pub open spec fn spec_decode(s: Seq<u8>) -> Result<BusVoltagePacket, DecodeError> {
        if s.len() != BUS_VOLTAGE_PACKET_LEN {
            Err(DecodeError::InvalidLength)
        } else {
            Ok(BusVoltagePacket { sequence: s[0], raw: spec_le_u16(s.subrange(1, 3)) })
        }
    }

    pub fn encode(self) -> (out: [u8; BUS_VOLTAGE_PACKET_LEN])
        ensures
            out@ == self.spec_encode(),
    {
        let r = u16_to_le(self.raw);
        let out = [self.sequence, r[0], r[1]];
        assert(out@ =~= self.spec_encode());
        out
    }

    pub fn decode(input: &[u8]) -> (r: Result<Self, DecodeError>)
        ensures
            r == Self::spec_decode(input@),
    {
        if input.len() != BUS_VOLTAGE_PACKET_LEN {
            return Err(DecodeError::InvalidLength);
        }
        let raw = le_to_u16(input[1], input[2]);
        assert(input@.subrange(1, 3) =~= seq![input@[1], input@[2]]);
        Ok(BusVoltagePacket { sequence: input[0], raw })
    }
}

/// Decoding an encoded bus-voltage packet gives it back; every accepted byte
/// string is the encoding of what it decodes to.
pub proof fn lemma_bus_voltage_packet_roundtrip(p: BusVoltagePacket, s: Seq<u8>)
    ensures
        BusVoltagePacket::spec_decode(p.spec_encode()) == Ok::<BusVoltagePacket, DecodeError>(p),
        BusVoltagePacket::spec_decode(s) matches Ok(q) ==> q.spec_encode() == s,
{
    lemma_le_u16_roundtrip(p.raw, s.subrange(1, 3));
    assert(p.spec_encode().subrange(1, 3) =~= spec_u16_le(p.raw));
    if let Ok(q) = BusVoltagePacket::spec_decode(s) {
        assert(q.spec_encode() =~= s);
    }
}


/// `bytes` followed by zero bytes up to the text payload size.
pub open spec fn spec_padded_payload(bytes: Seq<u8>) -> Seq<u8> {
    bytes + Seq::new((TEXT_API_PAYLOAD_LEN - bytes.len()) as nat, |i: int| 0u8)
}

/// Copies `bytes` into a zeroed payload buffer.
fn padded_payload(bytes: &[u8]) -> (payload: [u8; TEXT_API_PAYLOAD_LEN])
    requires
        bytes@.len() <= TEXT_API_PAYLOAD_LEN,
    ensures
        payload@ == spec_padded_payload(bytes@),
{
    let mut payload: [u8; TEXT_API_PAYLOAD_LEN] = vstd::array::array_fill_for_copy_types(0u8);
    let mut i: usize = 0;
    while i < bytes.len()
        invariant
            i <= bytes@.len() <= TEXT_API_PAYLOAD_LEN,
            payload@.len() == TEXT_API_PAYLOAD_LEN,
            forall|j: int| 0 <= j < i ==> payload@[j] == bytes@[j],
            forall|j: int| i <= j < TEXT_API_PAYLOAD_LEN ==> payload@[j] == 0,
        decreases bytes@.len() - i,
    {
        payload[i] = bytes[i];
        i = i + 1;
    }
    assert(payload@ =~= spec_padded_payload(bytes@));
    payload
}

/// Copies the text payload that starts at `offset` out of a packet.
fn payload_at(input: &[u8], offset: usize) -> (payload: [u8; TEXT_API_PAYLOAD_LEN])
    requires
        offset + TEXT_API_PAYLOAD_LEN == input@.len(),
    ensures
        payload@ == input@.subrange(offset as int, input@.len() as int),
{
    let mut payload: [u8; TEXT_API_PAYLOAD_LEN] = vstd::array::array_fill_for_copy_types(0u8);
    let n = input.len();
    let mut i: usize = 0;
    while i < TEXT_API_PAYLOAD_LEN
        invariant
            i <= TEXT_API_PAYLOAD_LEN,
            n == input@.len(),
            offset + TEXT_API_PAYLOAD_LEN == input@.len(),
            payload@.len() == TEXT_API_PAYLOAD_LEN,
            forall|j: int| 0 <= j < i ==> payload@[j] == input@[offset + j],
        decreases TEXT_API_PAYLOAD_LEN - i,
    {
        payload[i] = input[offset + i];
        i = i + 1;
    }
    assert(payload@ =~= input@.subrange(offset as int, input@.len() as int));
    payload
}

/// A text API request: `len` meaningful bytes at the front of `payload`.
#[derive(Clone, Copy, Debug, PartialEq, Eq)]
pub struct TextApiRequestPacket {
    pub sequence: u8,
    pub len: u8,
    pub payload: [u8; TEXT_API_PAYLOAD_LEN],
}

impl TextApiRequestPacket {
    pub open spec fn spec_encode(self) -> Seq<u8> {
        seq![self.sequence, self.len] + self.payload@
    }

    /// Why `s` is not a request packet, if it is not one.
    pub open spec fn spec_decode_error(s: Seq<u8>) -> Option<DecodeError> {
        if s.len() != TEXT_API_REQUEST_PACKET_LEN {
            Some(DecodeError::InvalidLength)
        } else if s[1] > TEXT_API_PAYLOAD_LEN {
            Some(DecodeError::InvalidTextApiLength)
        } else {
            None
        }
    }

    /// `p` is what the request packet `s` decodes to.
    pub open spec fn spec_decodes_to(s: Seq<u8>, p: TextApiRequestPacket) -> bool {
        &&& p.sequence == s[0]
        &&& p.len == s[1]
        &&& p.payload@ == s.subrange(2, TEXT_API_REQUEST_PACKET_LEN as int)
    }

    /// A request carrying the bytes of `request`; longer than the payload is
    /// refused.
    pub fn new(sequence: u8, request: &str) -> (r: Result<Self, DecodeError>)
        ensures
            r is Err <==> request.spec_bytes().len() > TEXT_API_PAYLOAD_LEN,
            r matches Err(e) ==> e == DecodeError::InvalidTextApiLength,
            r matches Ok(p) ==> {
                &&& p.sequence == sequence
                &&& p.len == request.spec_bytes().len()
                &&& p.payload@ == spec_padded_payload(request.spec_bytes())
            },
    {
        let bytes = request.as_bytes();
        if bytes.len() > TEXT_API_PAYLOAD_LEN {
            return Err(DecodeError::InvalidTextApiLength);
        }
        let payload = padded_payload(bytes);
        Ok(Self { sequence, len: bytes.len() as u8, payload })
    }

    pub fn encode(self) -> (out: [u8; TEXT_API_REQUEST_PACKET_LEN])
        ensures
            out@ == self.spec_encode(),
    {
        let mut v: Vec<u8> = Vec::new();
        v.push(self.sequence);
        v.push(self.len);
        push_bytes(&mut v, &self.payload);
        assert(v@ =~= self.spec_encode());
        to_array(&v)
    }

    pub fn decode(input: &[u8]) -> (r: Result<Self, DecodeError>)
        ensures
            r is Ok <==> Self::spec_decode_error(input@) is None,
            r matches Err(e) ==> Self::spec_decode_error(input@) == Some(e),
            r matches Ok(p) ==> Self::spec_decodes_to(input@, p),
    {
        if input.len() != TEXT_API_REQUEST_PACKET_LEN {
            return Err(DecodeError::InvalidLength);
        }
        if input[1] as usize > TEXT_API_PAYLOAD_LEN {
            return Err(DecodeError::InvalidTextApiLength);
        }
        let payload = payload_at(input, 2);
        Ok(Self { sequence: input[0], len: input[1], payload })
    }

    /// The meaningful part of the payload.
    pub fn payload(&self) -> (r: &[u8])
        requires
            self.len <= TEXT_API_PAYLOAD_LEN,
        ensures
            r@ == self.payload@.subrange(0, self.len as int),
    {
        let all = vstd::array::array_as_slice(&self.payload);
        &all[0..self.len as usize]
    }
}

/// A request with a valid length decodes from its encoding to itself, and an
/// accepted byte string is the encoding of what it decodes to.
pub proof fn lemma_text_api_request_packet_roundtrip(
    p: TextApiRequestPacket,
    s: Seq<u8>,
    q: TextApiRequestPacket,
)
    ensures
        p.len <= TEXT_API_PAYLOAD_LEN ==> {
            &&& TextApiRequestPacket::spec_decode_error(p.spec_encode()) is None
            &&& TextApiRequestPacket::spec_decodes_to(p.spec_encode(), p)
        },
        TextApiRequestPacket::spec_decode_error(s) is None && TextApiRequestPacket::spec_decodes_to(
            s,
            q,
        ) ==> q.spec_encode() == s,
{
    assert(p.spec_encode().subrange(2, TEXT_API_REQUEST_PACKET_LEN as int) =~= p.payload@);
    if TextApiRequestPacket::spec_decode_error(s) is None
        && TextApiRequestPacket::spec_decodes_to(s, q) {
        assert(q.spec_encode() =~= s);
    }
}

/// A text API response: a status and `len` meaningful bytes at the front of
/// `payload`.
#[derive(Clone, Copy, Debug, PartialEq, Eq)]
pub struct TextApiResponsePacket {
    pub sequence: u8,
    pub status: TextApiResponseStatus,
    pub len: u8,
    pub payload: [u8; TEXT_API_PAYLOAD_LEN],
}

impl TextApiResponsePacket {
    pub open spec fn spec_encode(self) -> Seq<u8> {
        seq![self.sequence, spec_text_api_status_to_u8(self.status), self.len] + self.payload@
    }

    /// Why `s` is not a response packet, if it is not one. The length byte is
    /// checked before the status byte.
    pub open spec fn spec_decode_error(s: Seq<u8>) -> Option<DecodeError> {
        if s.len() != TEXT_API_RESPONSE_PACKET_LEN {
            Some(DecodeError::InvalidLength)
        } else if s[2] > TEXT_API_PAYLOAD_LEN {
            Some(DecodeError::InvalidTextApiLength)
        } else {
            match spec_text_api_status_from_u8(s[1]) {
                Err(e) => Some(e),
                Ok(_) => None,
            }
        }
    }

    /// `p` is what the response packet `s` decodes to.
    pub open spec fn spec_decodes_to(s: Seq<u8>, p: TextApiResponsePacket) -> bool {
        &&& p.sequence == s[0]
        &&& spec_text_api_status_from_u8(s[1]) == Ok::<TextApiResponseStatus, DecodeError>(
            p.status,
        )
        &&& p.len == s[2]
        &&& p.payload@ == s.subrange(3, TEXT_API_RESPONSE_PACKET_LEN as int)
    }

    /// A response carrying `response`; longer than the payload is refused.
    pub fn new(sequence: u8, status: TextApiResponseStatus, response: &[u8]) -> (r: Result<
        Self,
        DecodeError,
    >)
        ensures
            r is Err <==> response@.len() > TEXT_API_PAYLOAD_LEN,
            r matches Err(e) ==> e == DecodeError::InvalidTextApiLength,
            r matches Ok(p) ==> {
                &&& p.sequence == sequence
                &&& p.status == status
                &&& p.len == response@.len()
                &&& p.payload@ == spec_padded_payload(response@)
            },
    {
        if response.len() > TEXT_API_PAYLOAD_LEN {
            return Err(DecodeError::InvalidTextApiLength);
        }
        let payload = padded_payload(response);
        Ok(Self { sequence, status, len: response.len() as u8, payload })
    }

    pub fn encode(self) -> (out: [u8; TEXT_API_RESPONSE_PACKET_LEN])
        ensures
            out@ == self.spec_encode(),
    {
        let mut v: Vec<u8> = Vec::new();
        v.push(self.sequence);
        v.push(text_api_status_to_u8(self.status));
        v.push(self.len);
        push_bytes(&mut v, &self.payload);
        assert(v@ =~= self.spec_encode());
        to_array(&v)
    }

    pub fn decode(input: &[u8]) -> (r: Result<Self, DecodeError>)
        ensures
            r is Ok <==> Self::spec_decode_error(input@) is None,
            r matches Err(e) ==> Self::spec_decode_error(input@) == Some(e),
            r matches Ok(p) ==> Self::spec_decodes_to(input@, p),
    {
        if input.len() != TEXT_API_RESPONSE_PACKET_LEN {
            return Err(DecodeError::InvalidLength);
        }
        if input[2] as usize > TEXT_API_PAYLOAD_LEN {
            return Err(DecodeError::InvalidTextApiLength);
        }
        let status = match text_api_status_from_u8(input[1]) {
            Ok(s) => s,
            Err(e) => return Err(e),
        };
        let payload = payload_at(input, 3);
        Ok(Self { sequence: input[0], status, len: input[2], payload })
    }

    /// The meaningful part of the payload.
    pub fn payload(&self) -> (r: &[u8])
        requires
            self.len <= TEXT_API_PAYLOAD_LEN,
        ensures
            r@ == self.payload@.subrange(0, self.len as int),
    {
        let all = vstd::array::array_as_slice(&self.payload);
        &all[0..self.len as usize]
    }
}

/// A response with a valid length decodes from its encoding to itself, and
/// an accepted byte string is the encoding of what it decodes to.
pub proof fn lemma_text_api_response_packet_roundtrip(
    p: TextApiResponsePacket,
    s: Seq<u8>,
    q: TextApiResponsePacket,
)
    ensures
        p.len <= TEXT_API_PAYLOAD_LEN ==> {
            &&& TextApiResponsePacket::spec_decode_error(p.spec_encode()) is None
            &&& TextApiResponsePacket::spec_decodes_to(p.spec_encode(), p)
        },
        TextApiResponsePacket::spec_decode_error(s) is None
            && TextApiResponsePacket::spec_decodes_to(s, q) ==> q.spec_encode() == s,
{
    lemma_text_api_status_code_roundtrip(p.status, 0);
    assert(p.spec_encode().subrange(3, TEXT_API_RESPONSE_PACKET_LEN as int) =~= p.payload@);
    if TextApiResponsePacket::spec_decode_error(s) is None
        && TextApiResponsePacket::spec_decodes_to(s, q) {
        lemma_text_api_status_code_roundtrip(q.status, s[1]);
        assert(q.spec_encode() =~= s);
    }
}


/// The twenty bytes of one statistics snapshot: samples, last, max (32-bit)
/// and the mean (64-bit), all little-endian.
#[verifier::opaque]
pub open spec fn spec_stats_bytes(st: CycleStatsSnapshot) -> Seq<u8> {
    spec_u32_le(st.samples) + spec_u32_le(st.last_cycles) + spec_u32_le(st.max_cycles)
        + spec_u64_le(st.mean_milli_cycles)
}

/// Period statistics followed by execution statistics.
pub open spec fn spec_loop_bytes(l: LoopBenchmarkSnapshot) -> Seq<u8> {
    spec_stats_bytes(l.period) + spec_stats_bytes(l.execution)
}

/// The statistics snapshot whose twenty bytes start at `offset`.
#[verifier::opaque]
pub open spec fn spec_stats_at(s: Seq<u8>, offset: int) -> CycleStatsSnapshot {
    CycleStatsSnapshot {
        samples: spec_le_u32(s.subrange(offset, offset + 4)),
        last_cycles: spec_le_u32(s.subrange(offset + 4, offset + 8)),
        max_cycles: spec_le_u32(s.subrange(offset + 8, offset + 12)),
        mean_milli_cycles: spec_le_u64(s.subrange(offset + 12, offset + 20)),
    }
}

/// The loop snapshot whose forty bytes start at `offset`.
pub open spec fn spec_loop_at(s: Seq<u8>, offset: int) -> LoopBenchmarkSnapshot {
    LoopBenchmarkSnapshot {
        period: spec_stats_at(s, offset),
        execution: spec_stats_at(s, offset + 20),
    }
}

proof fn lemma_stats_bytes_roundtrip(st: CycleStatsSnapshot, pre: Seq<u8>, post: Seq<u8>)
    ensures
        spec_stats_bytes(st).len() == 20,
        spec_stats_at(pre + spec_stats_bytes(st) + post, pre.len() as int) == st,
{
    reveal(spec_stats_bytes);
    reveal(spec_stats_at);
    let b = spec_stats_bytes(st);
    let all = pre + b + post;
    let o = pre.len() as int;
    lemma_le_u32_roundtrip(st.samples, seq![]);
    lemma_le_u32_roundtrip(st.last_cycles, seq![]);
    lemma_le_u32_roundtrip(st.max_cycles, seq![]);
    lemma_le_u64_roundtrip(st.mean_milli_cycles, seq![]);
    assert(all.subrange(o, o + 4) =~= spec_u32_le(st.samples));
    assert(all.subrange(o + 4, o + 8) =~= spec_u32_le(st.last_cycles));
    assert(all.subrange(o + 8, o + 12) =~= spec_u32_le(st.max_cycles));
    assert(all.subrange(o + 12, o + 20) =~= spec_u64_le(st.mean_milli_cycles));
}

proof fn lemma_stats_at_bytes(s: Seq<u8>, offset: int)
    requires
        0 <= offset,
        offset + 20 <= s.len(),
    ensures
        spec_stats_bytes(spec_stats_at(s, offset)) == s.subrange(offset, offset + 20),
{
    reveal(spec_stats_bytes);
    reveal(spec_stats_at);
    lemma_le_u32_roundtrip(0, s.subrange(offset, offset + 4));
    lemma_le_u32_roundtrip(0, s.subrange(offset + 4, offset + 8));
    lemma_le_u32_roundtrip(0, s.subrange(offset + 8, offset + 12));
    lemma_le_u64_roundtrip(0, s.subrange(offset + 12, offset + 20));
    assert(spec_stats_bytes(spec_stats_at(s, offset)) =~= s.subrange(offset, offset + 20));
}

fn encode_stats_snapshot(out: &mut Vec<u8>, snapshot: CycleStatsSnapshot)
    ensures
        final(out)@ == old(out)@ + spec_stats_bytes(snapshot),
{
    reveal(spec_stats_bytes);
    let ghost before = out@;
    push_u32_le(out, snapshot.samples);
    push_u32_le(out, snapshot.last_cycles);
    push_u32_le(out, snapshot.max_cycles);
    push_u64_le(out, snapshot.mean_milli_cycles);
    assert(out@ =~= before + spec_stats_bytes(snapshot));
}

fn encode_loop_snapshot(out: &mut Vec<u8>, snapshot: LoopBenchmarkSnapshot)
    ensures
        final(out)@ == old(out)@ + spec_loop_bytes(snapshot),
{
    let ghost before = out@;
    encode_stats_snapshot(out, snapshot.period);
    encode_stats_snapshot(out, snapshot.execution);
    assert(out@ =~= before + spec_loop_bytes(snapshot));
}

fn read_u32_at(input: &[u8], offset: usize) -> (x: u32)
    requires
        offset + 4 <= input.len(),
    ensures
        x == spec_le_u32(input@.subrange(offset as int, offset + 4)),
{
    assert(input@.subrange(offset as int, offset + 4) =~= seq![
        input@[offset as int],
        input@[offset + 1],
        input@[offset + 2],
        input@[offset + 3],
    ]);
    le_to_u32(input[offset], input[offset + 1], input[offset + 2], input[offset + 3])
}

fn decode_stats_snapshot(input: &[u8], offset: usize) -> (r: (CycleStatsSnapshot, usize))
    requires
        offset + 20 <= input.len(),
    ensures
        r.0 == spec_stats_at(input@, offset as int),
        r.1 == offset + 20,
{
    reveal(spec_stats_at);
    let samples = read_u32_at(input, offset);
    let last_cycles = read_u32_at(input, offset + 4);
    let max_cycles = read_u32_at(input, offset + 8);
    let lo = read_u32_at(input, offset + 12);
    let hi = read_u32_at(input, offset + 16);
    let mean_milli_cycles = le_to_u64(lo, hi);
    proof {
        let m = input@.subrange(offset + 12, offset + 20);
        assert(m.subrange(0, 4) =~= input@.subrange(offset + 12, offset + 16));
        assert(m.subrange(4, 8) =~= input@.subrange(offset + 16, offset + 20));
    }
    (CycleStatsSnapshot { samples, last_cycles, max_cycles, mean_milli_cycles }, offset + 20)
}

fn decode_loop_snapshot(input: &[u8], offset: usize) -> (r: (LoopBenchmarkSnapshot, usize))
    requires
        offset + 40 <= input.len(),
    ensures
        r.0 == spec_loop_at(input@, offset as int),
        r.1 == offset + 40,
{
    let (period, offset) = decode_stats_snapshot(input, offset);
    let (execution, offset) = decode_stats_snapshot(input, offset);
    (LoopBenchmarkSnapshot { period, execution }, offset)
}

/// The benchmark report as a packet.
#[derive(Clone, Copy, Debug, PartialEq, Eq, Structural)]
pub struct BenchmarkPacket {
    pub sequence: u8,
    pub report: BenchmarkReport,
}

impl BenchmarkPacket {
    /// `[sequence, fast loop (40 bytes), main loop (40 bytes)]`.
    pub open spec fn spec_encode(self) -> Seq<u8> {
        seq![self.sequence] + spec_loop_bytes(self.report.fast) + spec_loop_bytes(self.report.main)
    }

    pub open spec fn spec_decode(s: Seq<u8>) -> Result<BenchmarkPacket, DecodeError> {
        if s.len() != BENCHMARK_PACKET_LEN {
            Err(DecodeError::InvalidLength)
        } else {
            Ok(
                BenchmarkPacket {
                    sequence: s[0],
                    report: BenchmarkReport { fast: spec_loop_at(s, 1), main: spec_loop_at(s, 41) },
                },
            )
        }
    }

    pub fn encode(self) -> (out: [u8; BENCHMARK_PACKET_LEN])
        ensures
            out@ == self.spec_encode(),
    {
        let mut v: Vec<u8> = Vec::new();
        v.push(self.sequence);
        encode_loop_snapshot(&mut v, self.report.fast);
        encode_loop_snapshot(&mut v, self.report.main);
        proof {
            lemma_stats_bytes_roundtrip(self.report.fast.period, seq![], seq![]);
            lemma_stats_bytes_roundtrip(self.report.fast.execution, seq![], seq![]);
            lemma_stats_bytes_roundtrip(self.report.main.period, seq![], seq![]);
            lemma_stats_bytes_roundtrip(self.report.main.execution, seq![], seq![]);
        }
        assert(v@ =~= self.spec_encode());
        to_array(&v)
    }

    pub fn decode(input: &[u8]) -> (r: Result<Self, DecodeError>)
        ensures
            r == Self::spec_decode(input@),
    {
        if input.len() != BENCHMARK_PACKET_LEN {
            return Err(DecodeError::InvalidLength);
        }
        let (fast, offset) = decode_loop_snapshot(input, 1);
        let (main, _) = decode_loop_snapshot(input, offset);
        Ok(Self { sequence: input[0], report: BenchmarkReport { fast, main } })
    }
}

proof fn lemma_loop_bytes_roundtrip(l: LoopBenchmarkSnapshot, pre: Seq<u8>, post: Seq<u8>)
    ensures
        spec_loop_bytes(l).len() == 40,
        spec_loop_at(pre + spec_loop_bytes(l) + post, pre.len() as int) == l,
{
    let p = spec_stats_bytes(l.period);
    let x = spec_stats_bytes(l.execution);
    lemma_stats_bytes_roundtrip(l.period, pre, x + post);
    lemma_stats_bytes_roundtrip(l.execution, pre + p, post);
    assert(pre + spec_loop_bytes(l) + post =~= pre + p + (x + post));
    assert(pre + spec_loop_bytes(l) + post =~= pre + p + x + post);
}

proof fn lemma_loop_at_bytes(s: Seq<u8>, offset: int)
    requires
        0 <= offset,
        offset + 40 <= s.len(),
    ensures
        spec_loop_bytes(spec_loop_at(s, offset)) == s.subrange(offset, offset + 40),
{
    lemma_stats_at_bytes(s, offset);
    lemma_stats_at_bytes(s, offset + 20);
    let a = s.subrange(offset, offset + 20);
    let b = s.subrange(offset + 20, offset + 40);
    assert(a + b =~= s.subrange(offset, offset + 40));
    let l = spec_loop_at(s, offset);
    assert(spec_stats_bytes(l.period) == a);
    assert(spec_stats_bytes(l.execution) == b);
}

/// Decoding an encoded benchmark packet gives it back; every accepted byte
/// string is the encoding of what it decodes to.
pub proof fn lemma_benchmark_packet_roundtrip(p: BenchmarkPacket, s: Seq<u8>)
    ensures
        BenchmarkPacket::spec_decode(p.spec_encode()) == Ok::<BenchmarkPacket, DecodeError>(p),
        BenchmarkPacket::spec_decode(s) matches Ok(q) ==> q.spec_encode() == s,
{
    let head = seq![p.sequence];
    let fb = spec_loop_bytes(p.report.fast);
    let mb = spec_loop_bytes(p.report.main);
    lemma_loop_bytes_roundtrip(p.report.fast, head, mb);
    lemma_loop_bytes_roundtrip(p.report.main, head + fb, seq![]);
    assert(p.spec_encode() =~= head + fb + mb + seq![]);
    if let Ok(q) = BenchmarkPacket::spec_decode(s) {
        lemma_loop_at_bytes(s, 1);
        lemma_loop_at_bytes(s, 41);
        assert(q.spec_encode() =~= s);
    }
}

} // verus!
