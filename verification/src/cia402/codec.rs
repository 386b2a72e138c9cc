//! Reading of PDO payloads, status words, fault codes and mode numbers.
//!
//! All numbers are little-endian. The position is a single-precision number of
//! revolutions within one turn; temperatures are in tenths of a degree; the
//! torque is in thousandths of the peak torque.

use vstd::prelude::*;

use super::types::Logic;
use crate::canopen::bytes::{
    bits_i16, le16, le32, signed16, u16_at, u32_at, value16, value32, wrap16,
};
use crate::number::Real32;
use crate::types::{MotorErrorKind, MotorMode};

verus! {

/// The first transmit PDO: position, time, torque and fault code, 12 bytes.
#[derive(Debug, Clone, Copy, PartialEq)]
pub struct Tpdo1Frame {
    /// Position within one turn, in revolutions.
    pub position_rev: Real32,
    /// The clock of the motor (0x1013), in us.
    pub timestamp_us: u32,
    /// In thousandths of the peak torque.
    pub torque_permille: i16,
    /// 0x603F; 0 for no fault.
    pub error_code: u16,
}

/// The second transmit PDO: status word, two temperatures, control word and
/// fault code, 10 bytes.
#[derive(Debug, Clone, Copy, PartialEq, Eq, Structural)]
pub struct Tpdo2Frame {
    pub status_word: u16,
    /// In tenths of a degree Celsius.
    pub driver_temp_x10: i16,
    /// In tenths of a degree Celsius.
    pub motor_temp_x10: i16,
    /// The control word that the motor has now.
    pub control_word_readback: u16,
    pub error_code: u16,
}

/// What the payload of a first transmit PDO says.
pub open spec fn tpdo1_of(data: Seq<u8>) -> Option<Tpdo1Frame> {
    if data.len() < 12 {
        None
    } else {
        Some(
            Tpdo1Frame {
                position_rev: Real32 { bits: value32(data, 0) },
                timestamp_us: value32(data, 4),
                torque_permille: signed16(value16(data, 8)),
                error_code: value16(data, 10),
            },
        )
    }
}

/// What the payload of a second transmit PDO says.
pub open spec fn tpdo2_of(data: Seq<u8>) -> Option<Tpdo2Frame> {
    if data.len() < 10 {
        None
    } else {
        Some(
            Tpdo2Frame {
                status_word: value16(data, 0),
                driver_temp_x10: signed16(value16(data, 2)),
                motor_temp_x10: signed16(value16(data, 4)),
                control_word_readback: value16(data, 6),
                error_code: value16(data, 8),
            },
        )
    }
}

/// Reads the payload of a first transmit PDO; `None` if it is too short.
pub fn decode_tpdo1(data: &[u8]) -> (r: Option<Tpdo1Frame>)
    ensures
        r == tpdo1_of(data@),
{
    if data.len() < 12 {
        return None;
    }
    Some(
        Tpdo1Frame {
            position_rev: Real32 { bits: u32_at(data, 0) },
            timestamp_us: u32_at(data, 4),
            torque_permille: bits_i16(u16_at(data, 8)),
            error_code: u16_at(data, 10),
        },
    )
}

/// Reads the payload of a second transmit PDO; `None` if it is too short.
pub fn decode_tpdo2(data: &[u8]) -> (r: Option<Tpdo2Frame>)
    ensures
        r == tpdo2_of(data@),
{
    if data.len() < 10 {
        return None;
    }
    Some(
        Tpdo2Frame {
            status_word: u16_at(data, 0),
            driver_temp_x10: bits_i16(u16_at(data, 2)),
            motor_temp_x10: bits_i16(u16_at(data, 4)),
            control_word_readback: u16_at(data, 6),
            error_code: u16_at(data, 8),
        },
    )
}

/// Bit 3 of the status word.
pub open spec fn has_fault(sw: u16) -> bool {
    sw / 8 % 2 == 1
}

/// Bits 0, 1 and 2 of the status word, all set.
pub open spec fn operation_enabled(sw: u16) -> bool {
    sw % 8 == 7
}

/// Whether the status word reports a fault (bit 3).
pub fn status_word_has_fault(sw: u16) -> (r: bool)
    ensures
        r == has_fault(sw),
{
    sw / 8 % 2 == 1
}

/// Whether the status word says that operation is enabled (bits 0 to 2).
pub fn status_word_is_operation_enabled(sw: u16) -> (r: bool)
    ensures
        r == operation_enabled(sw),
{
    sw % 8 == 7
}

/// The control state that a status word stands for. A fault comes before all
/// else. Without a mode that was asked for, it cannot be said which mode is
/// enabled, and the motor counts as disabled.
pub open spec fn logic_of(sw: u16, mode: Option<MotorMode>, error_code: u16) -> Logic {
    if has_fault(sw) {
        Logic::Error { kind: kind_of(error_code), raw_code: error_code }
    } else if operation_enabled(sw) && mode is Some {
        Logic::Enabled(mode->0)
    } else {
        Logic::Disabled
    }
}

/// The control state of a motor with this status word and fault code.
/// `current_target_mode` is the mode that was last asked for.
pub fn status_word_to_logic(
    sw: u16,
    current_target_mode: Option<MotorMode>,
    error_code: u16,
) -> (r: Logic)
    ensures
        r == logic_of(sw, current_target_mode, error_code),
{
    if status_word_has_fault(sw) {
        return Logic::Error { kind: error_code_to_kind(error_code), raw_code: error_code };
    }
    if status_word_is_operation_enabled(sw) {
        if let Some(mode) = current_target_mode {
            return Logic::Enabled(mode);
        }
    }
    Logic::Disabled
}

/// The kind of fault that a fault code (0x603F) stands for.
pub open spec fn kind_of(code: u16) -> MotorErrorKind {
    if code == 0x2310 {
        MotorErrorKind::OverCurrent
    } else if code == 0x3210 {
        MotorErrorKind::OverVoltage
    } else if code == 0x3220 {
        MotorErrorKind::UnderVoltage
    } else if code == 0x4210 {
        MotorErrorKind::DriverOverTemp
    } else if code == 0x4310 {
        MotorErrorKind::MotorOverTemp
    } else if code == 0x7305 {
        MotorErrorKind::EncoderError
    } else if code == 0x8130 {
        MotorErrorKind::HeartbeatLost
    } else {
        MotorErrorKind::Other
    }
}

/// The kind of fault that a fault code (0x603F) stands for.
pub fn error_code_to_kind(code: u16) -> (r: MotorErrorKind)
    ensures
        r == kind_of(code),
{
    match code {
        0x2310 => MotorErrorKind::OverCurrent,
        0x3210 => MotorErrorKind::OverVoltage,
        0x3220 => MotorErrorKind::UnderVoltage,
        0x4210 => MotorErrorKind::DriverOverTemp,
        0x4310 => MotorErrorKind::MotorOverTemp,
        0x7305 => MotorErrorKind::EncoderError,
        0x8130 => MotorErrorKind::HeartbeatLost,
        _ => MotorErrorKind::Other,
    }
}

/// The number of a mode in 0x6060. Number 5 is the vendor's own MIT mode.
pub open spec fn mode_code(mode: MotorMode) -> i8 {
    match mode {
        MotorMode::ProfilePosition => 1,
        MotorMode::ProfileVelocity => 3,
        MotorMode::Torque => 4,
        MotorMode::Mit => 5,
    }
}

/// The number of a mode in 0x6060.
pub fn mode_to_cia402_code(mode: MotorMode) -> (r: i8)
    ensures
        r == mode_code(mode),
{
    match mode {
        MotorMode::ProfilePosition => 1,
        MotorMode::ProfileVelocity => 3,
        MotorMode::Torque => 4,
        MotorMode::Mit => 5,
    }
}

/// The payload that a motor sends for a first transmit PDO.
pub open spec fn tpdo1_payload(f: Tpdo1Frame) -> Seq<u8> {
    le32(f.position_rev.bits) + le32(f.timestamp_us) + le16(wrap16(f.torque_permille)) + le16(
        f.error_code,
    )
}

/// The payload that a motor sends for a second transmit PDO.
pub open spec fn tpdo2_payload(f: Tpdo2Frame) -> Seq<u8> {
    le16(f.status_word) + le16(wrap16(f.driver_temp_x10)) + le16(wrap16(f.motor_temp_x10)) + le16(
        f.control_word_readback,
    ) + le16(f.error_code)
}

/// What a motor sent in a first transmit PDO is read back, whatever follows
/// the twelve bytes.
pub proof fn tpdo1_is_read_back(f: Tpdo1Frame, rest: Seq<u8>)
    ensures
        tpdo1_payload(f).len() == 12,
        tpdo1_of(tpdo1_payload(f) + rest) == Some(f),
{
}

/// What a motor sent in a second transmit PDO is read back, whatever follows
/// the ten bytes.
pub proof fn tpdo2_is_read_back(f: Tpdo2Frame, rest: Seq<u8>)
    ensures
        tpdo2_payload(f).len() == 10,
        tpdo2_of(tpdo2_payload(f) + rest) == Some(f),
{
}

/// A fault in the status word is never read as anything but a fault, and
/// nothing else is read as one.
pub proof fn fault_comes_first(sw: u16, mode: Option<MotorMode>, error_code: u16)
    ensures
        logic_of(sw, mode, error_code) is Error <==> has_fault(sw),
        mode is None ==> !(logic_of(sw, mode, error_code) is Enabled),
        logic_of(sw, mode, error_code) matches Logic::Enabled(m) ==> mode == Some(m),
{
}

/// Different modes have different numbers.
pub proof fn mode_code_is_faithful(a: MotorMode, b: MotorMode)
    requires
        mode_code(a) == mode_code(b),
    ensures
        a == b,
{
}

/// Where the values of a first transmit PDO are in its bytes: the position in
/// bytes 0 to 3, the time in bytes 4 to 7, the torque as a signed number in
/// bytes 8 and 9, the fault code in bytes 10 and 11, least significant byte
/// first. Only a payload of fewer than 12 bytes is refused.
pub proof fn layout_of_tpdo1(data: Seq<u8>)
    ensures
        tpdo1_of(data) is None <==> data.len() < 12,
        tpdo1_of(data) matches Some(f) ==> {
            &&& f.position_rev.bits == data[0] + 0x100 * data[1] + 0x1_0000 * data[2] + 0x100_0000
                * data[3]
            &&& f.timestamp_us == data[4] + 0x100 * data[5] + 0x1_0000 * data[6] + 0x100_0000
                * data[7]
            &&& f.torque_permille == data[8] + 0x100 * data[9] - (if data[9] >= 0x80 {
                0x1_0000int
            } else {
                0
            })
            &&& f.error_code == data[10] + 0x100 * data[11]
        },
{
}

/// Where the values of a second transmit PDO are in its bytes: status word,
/// temperature of the driver, temperature of the motor, control word and fault
/// code, two bytes each in this order; the temperatures are signed. Only a
/// payload of fewer than 10 bytes is refused.
pub proof fn layout_of_tpdo2(data: Seq<u8>)
    ensures
        tpdo2_of(data) is None <==> data.len() < 10,
        tpdo2_of(data) matches Some(f) ==> {
            &&& f.status_word == data[0] + 0x100 * data[1]
            &&& f.driver_temp_x10 == data[2] + 0x100 * data[3] - (if data[3] >= 0x80 {
                0x1_0000int
            } else {
                0
            })
            &&& f.motor_temp_x10 == data[4] + 0x100 * data[5] - (if data[5] >= 0x80 {
                0x1_0000int
            } else {
                0
            })
            &&& f.control_word_readback == data[6] + 0x100 * data[7]
            &&& f.error_code == data[8] + 0x100 * data[9]
        },
{
}

/// The bits of a status word that count: bit 3 reports a fault, bits 0 to 2
/// together say that operation is enabled.
pub proof fn bits_of_a_status_word(sw: u16)
    ensures
        has_fault(sw) <==> sw & 0x0008 != 0,
        operation_enabled(sw) <==> sw & 0x0007 == 0x0007,
{
    assert((sw / 8 % 2 == 1) <==> (sw & 0x0008 != 0)) by (bit_vector);
    assert((sw % 8 == 7) <==> (sw & 0x0007 == 0x0007)) by (bit_vector);
}

/// What a status word is read as, for every one of them: with bit 3 a fault
/// that keeps its code; without it, and with bits 0 to 2, enabled in the mode
/// that was asked for, if one was; disabled in all other cases.
pub proof fn reading_of_a_status_word(sw: u16, mode: Option<MotorMode>, code: u16)
    ensures
        sw & 0x0008 != 0 ==> (logic_of(sw, mode, code) matches Logic::Error { kind, raw_code }
            && raw_code == code && kind == kind_of(code)),
        sw & 0x0008 == 0 && sw & 0x0007 == 0x0007 ==> match mode {
            Some(m) => logic_of(sw, mode, code) == Logic::Enabled(m),
            None => logic_of(sw, mode, code) is Disabled,
        },
        sw & 0x0008 == 0 && sw & 0x0007 != 0x0007 ==> logic_of(sw, mode, code) is Disabled,
{
    bits_of_a_status_word(sw);
}

/// Every fault code has its kind, and a kind that is reported belongs to one
/// code alone; all other codes are of no particular kind.
pub proof fn kinds_of_faults(code: u16)
    ensures
        kind_of(code) is OverCurrent <==> code == 0x2310,
        kind_of(code) is OverVoltage <==> code == 0x3210,
        kind_of(code) is UnderVoltage <==> code == 0x3220,
        kind_of(code) is DriverOverTemp <==> code == 0x4210,
        kind_of(code) is MotorOverTemp <==> code == 0x4310,
        kind_of(code) is EncoderError <==> code == 0x7305,
        kind_of(code) is HeartbeatLost <==> code == 0x8130,
        kind_of(code) is Other <==> !(code == 0x2310 || code == 0x3210 || code == 0x3220 || code
            == 0x4210 || code == 0x4310 || code == 0x7305 || code == 0x8130),
{
}

/// The number of each mode, and no other mode has it.
pub proof fn numbers_of_modes(mode: MotorMode)
    ensures
        mode_code(mode) == 1 <==> mode is ProfilePosition,
        mode_code(mode) == 3 <==> mode is ProfileVelocity,
        mode_code(mode) == 4 <==> mode is Torque,
        mode_code(mode) == 5 <==> mode is Mit,
{
}

} // verus!
