//! What kind of fault a motor reports.

use vstd::prelude::*;

verus! {

/// The kind of a motor fault. Each protocol maps its raw error codes to this.
#[derive(Debug, Clone, Copy, PartialEq, Eq, Hash, Structural)]
pub enum MotorErrorKind {
    OverCurrent,
    OverVoltage,
    UnderVoltage,
    DriverOverTemp,
    MotorOverTemp,
    HeartbeatLost,
    EncoderError,
    HallError,
    MotorStall,
    StartupDifficult,
    VelocityError,
    PositionError,
    /// Any other fault; the raw code is kept beside the kind.
    Other,
}

} // verus!
