//! Control targets and configuration parameters.

use vstd::prelude::*;

use super::mode::MotorMode;
use crate::number::Real32;

verus! {

/// The target of one motor.
///
/// The variant has to fit the mode that the motor is in; `Disable` fits every
/// mode.
#[derive(Debug, Clone, Copy, PartialEq)]
pub enum MotorTarget {
    /// Short-circuit brake. Fits every mode.
    Disable,
    /// Position in revolutions.
    Position { rev: Real32 },
    /// Velocity in revolutions per second.
    Velocity { rev_per_s: Real32 },
    /// Torque in Nm.
    Torque { nm: Real32 },
    /// All five values of a MIT target.
    Mit {
        /// Position in revolutions.
        pos: Real32,
        /// Velocity in revolutions per second.
        vel: Real32,
        /// Feed-forward torque in Nm.
        tor: Real32,
        /// Proportional gain in Nm per revolution.
        kp: Real32,
        /// Derivative gain in Nm s per revolution.
        kd: Real32,
    },
}

impl MotorTarget {
    /// The one mode that the target is for; none for `Disable`.
    pub open spec fn mode(self) -> Option<MotorMode> {
        match self {
            MotorTarget::Disable => None,
            MotorTarget::Position { .. } => Some(MotorMode::ProfilePosition),
            MotorTarget::Velocity { .. } => Some(MotorMode::ProfileVelocity),
            MotorTarget::Torque { .. } => Some(MotorMode::Torque),
            MotorTarget::Mit { .. } => Some(MotorMode::Mit),
        }
    }

    /// Whether the target can be used in `mode`.
    pub open spec fn fits(self, mode: MotorMode) -> bool {
        self is Disable || self.mode() == Some(mode)
    }

    /// The name of the variant.
    pub open spec fn text(self) -> Seq<char> {
        match self {
            MotorTarget::Disable => "Disable"@,
            MotorTarget::Position { .. } => "Position"@,
            MotorTarget::Velocity { .. } => "Velocity"@,
            MotorTarget::Torque { .. } => "Torque"@,
            MotorTarget::Mit { .. } => "Mit"@,
        }
    }

    /// The mode that the target is for. `Disable` is for every mode: `None`.
    pub fn mode_hint(&self) -> (r: Option<MotorMode>)
        ensures
            r == self.mode(),
    {
        match self {
            MotorTarget::Disable => None,
            MotorTarget::Position { .. } => Some(MotorMode::ProfilePosition),
            MotorTarget::Velocity { .. } => Some(MotorMode::ProfileVelocity),
            MotorTarget::Torque { .. } => Some(MotorMode::Torque),
            MotorTarget::Mit { .. } => Some(MotorMode::Mit),
        }
    }

    /// Whether the target can be used in `mode`.
    pub fn matches_mode(&self, mode: MotorMode) -> (r: bool)
        ensures
            r == self.fits(mode),
    {
        match self.mode_hint() {
            Some(m) => m == mode,
            None => true,
        }
    }

    /// The name of the variant, for logs and error messages.
    pub fn variant_name(&self) -> (r: &'static str)
        ensures
            r@ == self.text(),
    {
        match self {
            MotorTarget::Disable => "Disable",
            MotorTarget::Position { .. } => "Position",
            MotorTarget::Velocity { .. } => "Velocity",
            MotorTarget::Torque { .. } => "Torque",
            MotorTarget::Mit { .. } => "Mit",
        }
    }
}

/// Parameters of the profile modes.
#[derive(Debug, Clone, Copy, PartialEq)]
pub struct ProfileParams {
    /// Cruise velocity in revolutions per second.
    pub velocity_rev_per_s: Real32,
    /// Acceleration in revolutions per second squared.
    pub acceleration_rev_per_s2: Real32,
    /// Deceleration in revolutions per second squared.
    pub deceleration_rev_per_s2: Real32,
}

/// The limits between which the parts of a MIT target are mapped.
#[derive(Debug, Clone, Copy, PartialEq)]
pub struct MitMapping {
    pub position_min: Real32,
    pub position_max: Real32,
    pub velocity_min: Real32,
    pub velocity_max: Real32,
    pub torque_min: Real32,
    pub torque_max: Real32,
    pub kp_min: Real32,
    pub kp_max: Real32,
    pub kd_min: Real32,
    pub kd_max: Real32,
}

impl Default for MitMapping {
    /// Half a turn, ten revolutions per second and ten Nm either way, `kp` up
    /// to 100 and `kd` up to 20.
    fn default() -> (r: Self)
        ensures
            r.position_min.bits == 0xBF00_0000,
            r.position_max.bits == 0x3F00_0000,
            r.velocity_min.bits == 0xC120_0000,
            r.velocity_max.bits == 0x4120_0000,
            r.torque_min.bits == 0xC120_0000,
            r.torque_max.bits == 0x4120_0000,
            r.kp_min.bits == 0,
            r.kp_max.bits == 0x42C8_0000,
            r.kd_min.bits == 0,
            r.kd_max.bits == 0x41A0_0000,
    {
        MitMapping {
            position_min: Real32 { bits: 0xBF00_0000 },
            position_max: Real32 { bits: 0x3F00_0000 },
            velocity_min: Real32 { bits: 0xC120_0000 },
            velocity_max: Real32 { bits: 0x4120_0000 },
            torque_min: Real32 { bits: 0xC120_0000 },
            torque_max: Real32 { bits: 0x4120_0000 },
            kp_min: Real32 { bits: 0 },
            kp_max: Real32 { bits: 0x42C8_0000 },
            kd_min: Real32 { bits: 0 },
            kd_max: Real32 { bits: 0x41A0_0000 },
        }
    }
}

/// Which modes a target fits: its own and no other, except that `Disable` fits
/// all.
pub proof fn targets_fit_their_modes(t: MotorTarget, mode: MotorMode)
    ensures
        t is Disable ==> t.fits(mode) && t.mode() is None,
        t is Position ==> (t.fits(mode) <==> mode is ProfilePosition),
        t is Velocity ==> (t.fits(mode) <==> mode is ProfileVelocity),
        t is Torque ==> (t.fits(mode) <==> mode is Torque),
        t is Mit ==> (t.fits(mode) <==> mode is Mit),
        !(t is Disable) ==> (t.fits(mode) <==> t.mode() == Some(mode)),
{
}

/// The names of the targets.
pub proof fn names_of_targets(t: MotorTarget)
    ensures
        t is Disable ==> t.text() == "Disable"@,
        t is Position ==> t.text() == "Position"@,
        t is Velocity ==> t.text() == "Velocity"@,
        t is Torque ==> t.text() == "Torque"@,
        t is Mit ==> t.text() == "Mit"@,
{
}

} // verus!
