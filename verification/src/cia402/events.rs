//! What the manager tells its subscribers.

use vstd::prelude::*;

use super::types::ReinitReason;
use crate::types::{MotorErrorKind, MotorIdentity};

verus! {

/// How many events a slow subscriber may fall behind before it loses some.
pub const DEFAULT_EVENTS_CAPACITY: usize = 256;

/// Something that happened to a node.
#[derive(Debug)]
#[allow(inconsistent_fields)]
#[non_exhaustive]
pub enum Cia402Event {
    /// The first heartbeat of a node that was not listed.
    NodeAppeared { nid: u8 },
    /// The identity has been read.
    Identified { nid: u8, identity: MotorIdentity },
    /// The identity could not be read. It is tried again with a later
    /// heartbeat.
    IdentifyFailed { nid: u8, reason: String },
    /// The node has just appeared or come back.
    NodeOnline { nid: u8 },
    /// Neither a heartbeat nor a PDO came for too long.
    NodeOffline { nid: u8 },
    /// Initialization has begun.
    Initializing { nid: u8 },
    /// The motor is configured and operational.
    Initialized { nid: u8 },
    /// An initialized motor has to be initialized again.
    NeedsReinit { nid: u8, reason: ReinitReason },
    /// The motor reports a fault, and reported none before.
    EnteredError { nid: u8, kind: MotorErrorKind, raw: u16 },
}

impl Clone for Cia402Event {
    fn clone(&self) -> (r: Self)
        ensures
            r == *self,
    {
        match self {
            Cia402Event::NodeAppeared { nid } => Cia402Event::NodeAppeared { nid: *nid },
            Cia402Event::Identified { nid, identity } => Cia402Event::Identified {
                nid: *nid,
                identity: identity.clone(),
            },
            Cia402Event::IdentifyFailed { nid, reason } => Cia402Event::IdentifyFailed {
                nid: *nid,
                reason: reason.clone(),
            },
            Cia402Event::NodeOnline { nid } => Cia402Event::NodeOnline { nid: *nid },
            Cia402Event::NodeOffline { nid } => Cia402Event::NodeOffline { nid: *nid },
            Cia402Event::Initializing { nid } => Cia402Event::Initializing { nid: *nid },
            Cia402Event::Initialized { nid } => Cia402Event::Initialized { nid: *nid },
            Cia402Event::NeedsReinit { nid, reason } => Cia402Event::NeedsReinit {
                nid: *nid,
                reason: *reason,
            },
            Cia402Event::EnteredError { nid, kind, raw } => Cia402Event::EnteredError {
                nid: *nid,
                kind: *kind,
                raw: *raw,
            },
        }
    }
}

/// What a subscriber gets.
#[derive(Debug)]
pub enum EventStreamItem {
    /// An event.
    Event(Cia402Event),
    /// The subscriber was too slow and lost `dropped` events.
    Lagged { dropped: u64 },
}

/// What the channel of a subscriber delivered.
#[derive(Debug)]
pub enum Delivery {
    /// An event.
    Event(Cia402Event),
    /// This many events were overwritten.
    Overrun(u64),
    /// The manager is gone.
    Closed,
}

impl EventStreamItem {
    /// What a subscriber gets for a delivery; `None` at the end of the stream.
    pub fn from_delivery(delivery: Delivery) -> (r: Option<EventStreamItem>)
        ensures
            r == match delivery {
                Delivery::Event(event) => Some(EventStreamItem::Event(event)),
                Delivery::Overrun(n) => Some(EventStreamItem::Lagged { dropped: n }),
                Delivery::Closed => None,
            },
    {
        match delivery {
            Delivery::Event(event) => Some(EventStreamItem::Event(event)),
            Delivery::Overrun(n) => Some(EventStreamItem::Lagged { dropped: n }),
            Delivery::Closed => None,
        }
    }
}

} // verus!
