//! Plain data types shared by all motor protocols.

pub mod errors;
pub mod identity;
pub mod mode;
pub mod target;

pub use errors::MotorErrorKind;
pub use identity::MotorIdentity;
pub use mode::MotorMode;
pub use target::{MitMapping, MotorTarget, ProfileParams};
