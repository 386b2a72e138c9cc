//! The error type of the library.

use vstd::prelude::*;

use crate::types::MotorErrorKind;

verus! {

/// Why a frame could not be built.
#[derive(Debug, Clone, Copy, PartialEq, Eq, Structural)]
pub enum TransportError {
    /// The payload is longer than a frame of that kind can carry.
    DataTooLong { got: usize, max: usize },
}

/// Why an operation was refused.
#[derive(Debug, PartialEq, Eq)]
pub enum Error {
    /// A frame could not be built.
    Transport(TransportError),
    /// No motor with this node id has been seen.
    UnknownNode(u8),
    /// The node id is not in `1..=127`.
    InvalidNodeId(u8),
    /// The COB-ID cannot be used.
    InvalidCobId { cob_id: u16, reason: &'static str },
    /// The motor is in its error state.
    InErrorState(MotorErrorKind),
    /// The motor has not come far enough in its lifecycle.
    NotReady { nid: u8, lifecycle: String },
    /// The target is for another mode than the motor is in.
    TargetModeMismatch { expected: String, given: &'static str },
    /// The motor did not report the new mode in time.
    ModeConfirmTimeout,
    /// Anything else, in words.
    Internal(String),
}

/// Results of the library.
pub type Result<T> = std::result::Result<T, Error>;

impl Error {
    /// The error is `Internal` with this text.
    pub open spec fn says(self, text: Seq<char>) -> bool {
        self matches Error::Internal(s) && s@ == text
    }
}

/// Only an error in words says something, and it says one thing.
pub proof fn errors_say_one_thing(e: Error, a: Seq<char>, b: Seq<char>)
    requires
        e.says(a),
    ensures
        e is Internal,
        e->Internal_0@ == a,
        e.says(b) ==> a == b,
{
}

} // verus!
