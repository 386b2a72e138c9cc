//! The control modes of a motor.

use vstd::prelude::*;

verus! {

/// A control mode, as the user sees it. Each protocol has its own number for it.
#[derive(Debug, Clone, Copy, PartialEq, Eq, Hash, Structural)]
pub enum MotorMode {
    /// Profile position, CiA402 mode 1.
    ProfilePosition,
    /// Profile velocity, CiA402 mode 3.
    ProfileVelocity,
    /// Torque, CiA402 mode 4.
    Torque,
    /// Position, velocity, torque and the two gains at once.
    Mit,
}

impl MotorMode {
    /// The name of the mode.
    pub open spec fn text(self) -> Seq<char> {
        match self {
            MotorMode::ProfilePosition => "ProfilePosition"@,
            MotorMode::ProfileVelocity => "ProfileVelocity"@,
            MotorMode::Torque => "Torque"@,
            MotorMode::Mit => "Mit"@,
        }
    }

    /// The name of the mode, for logs and error messages.
    pub fn name(&self) -> (r: &'static str)
        ensures
            r@ == self.text(),
    {
        match self {
            MotorMode::ProfilePosition => "ProfilePosition",
            MotorMode::ProfileVelocity => "ProfileVelocity",
            MotorMode::Torque => "Torque",
            MotorMode::Mit => "Mit",
        }
    }
}

/// The names of the modes.
pub proof fn names_of_modes(m: MotorMode)
    ensures
        m is ProfilePosition ==> m.text() == "ProfilePosition"@,
        m is ProfileVelocity ==> m.text() == "ProfileVelocity"@,
        m is Torque ==> m.text() == "Torque"@,
        m is Mit ==> m.text() == "Mit"@,
{
}

} // verus!
