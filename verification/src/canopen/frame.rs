//! CAN frames.

use vstd::prelude::*;

use can_transport::{CanFrame, CanId, CanIoError};

use crate::error::{Error, Result, TransportError};

verus! {

/// The identifier of a frame.
#[derive(Debug, Clone, Copy, PartialEq, Eq, Structural)]
pub enum FrameId {
    /// An eleven-bit identifier.
    Standard(u16),
    /// A 29-bit identifier.
    Extended(u32),
}

/// What kind of frame it is.
#[derive(Debug, Clone, Copy, PartialEq, Eq, Structural)]
pub enum FrameKind {
    /// A classic data frame of at most 8 bytes.
    Data,
    /// A CAN-FD data frame of at most 64 bytes.
    Fd { brs: bool },
    /// A remote transmission request.
    Remote,
}

/// A frame as it is sent and received.
#[derive(Debug, PartialEq, Eq)]
pub struct Frame {
    pub id: FrameId,
    pub kind: FrameKind,
    pub data: Vec<u8>,
}

#[verifier::external_type_specification]
#[verifier::external_body]
pub struct ExCanIoError(CanIoError);

/// Calls `can_transport::CanFrame::new_data` and reads the frame back through
/// its `id`, `kind` and `data`.
///
/// A payload of at most 8 bytes gives a classic data frame with that
/// identifier and that payload; a longer one is refused.
#[verifier::external_body]
fn classic_frame(id: FrameId, payload: &[u8]) -> (r: std::result::Result<Frame, CanIoError>)
    ensures
        r is Ok <==> payload@.len() <= 8,
        r matches Ok(f) ==> f.id == id && f.kind == FrameKind::Data && f.data@ == payload@,
{
    let can_id = match id {
        FrameId::Standard(v) => CanId::Standard(v),
        FrameId::Extended(v) => CanId::Extended(v),
    };
    let frame = CanFrame::new_data(can_id, payload)?;
    let id = match frame.id() {
        CanId::Standard(v) => FrameId::Standard(v),
        CanId::Extended(v) => FrameId::Extended(v),
    };
    let kind = match frame.kind() {
        can_transport::FrameKind::Data => FrameKind::Data,
        can_transport::FrameKind::Fd { brs } => FrameKind::Fd { brs },
        can_transport::FrameKind::Remote => FrameKind::Remote,
    };
    Ok(Frame { id, kind, data: frame.data().to_vec() })
}

impl Frame {
    /// `self` is the classic data frame with this identifier and payload.
    pub open spec fn is_data(self, id: FrameId, payload: Seq<u8>) -> bool {
        self.id == id && self.kind == FrameKind::Data && self.data@ == payload
    }

    /// A classic data frame. A payload of more than 8 bytes is refused.
    pub fn new_data(id: FrameId, payload: &[u8]) -> (r: Result<Frame>)
        ensures
            match r {
                Ok(f) => payload@.len() <= 8 && f.is_data(id, payload@),
                Err(e) => payload@.len() > 8 && e == Error::Transport(
                    TransportError::DataTooLong { got: payload@.len() as usize, max: 8 },
                ),
            },
    {
        match classic_frame(id, payload) {
            Ok(f) => Ok(f),
            Err(_) => Err(
                Error::Transport(TransportError::DataTooLong { got: payload.len(), max: 8 }),
            ),
        }
    }

    /// The identifier.
    pub fn id(&self) -> (r: FrameId)
        ensures
            r == self.id,
    {
        self.id
    }

    /// The kind of frame.
    pub fn kind(&self) -> (r: FrameKind)
        ensures
            r == self.kind,
    {
        self.kind
    }

    /// The payload.
    pub fn data(&self) -> (r: &[u8])
        ensures
            r@ == self.data@,
    {
        self.data.as_slice()
    }
}

/// A classic data frame carries its identifier and its payload, and is neither
/// a CAN-FD frame nor a remote request.
pub proof fn data_frame_carries_its_payload(frame: Frame, id: FrameId, payload: Seq<u8>)
    ensures
        frame.is_data(id, payload) <==> {
            &&& frame.id == id
            &&& frame.data@ == payload
            &&& !(frame.kind is Fd)
            &&& !(frame.kind is Remote)
        },
{
}

} // verus!
