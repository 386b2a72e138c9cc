//! Heartbeats: the frame that we broadcast, and the entry that makes a motor
//! watch for it.

use vstd::prelude::*;

use super::frame::{Frame, FrameId};
use super::nmt::{is_heartbeat, NmtState};
use crate::error::Result;

verus! {

/// The identifier of the heartbeat that node `hb_node_id` sends; only the
/// lower seven bits of the node id count.
pub open spec fn heartbeat_cob_id(hb_node_id: u8) -> u16 {
    (0x700 + hb_node_id % 0x80) as u16
}

/// Our own heartbeat. `hb_node_id` is the node id that we have on the bus,
/// `state` is mostly [`NmtState::Operational`].
pub fn build_heartbeat_frame(hb_node_id: u8, state: NmtState) -> (r: Result<Frame>)
    ensures
        r matches Ok(f) && f.is_data(
            FrameId::Standard(heartbeat_cob_id(hb_node_id)),
            seq![state.code()],
        ),
{
    let cob_id: u16 = 0x700 + (hb_node_id % 0x80) as u16;
    let data = [state.byte()];
    assert(data@ =~= seq![state.code()]);
    Frame::new_data(FrameId::Standard(cob_id), &data)
}

/// An entry of object 0x1016: the watched node in bits 16 to 23, the timeout
/// in milliseconds in bits 0 to 15.
pub open spec fn consumer_entry(producer_node_id: u8, timeout_ms: u16) -> u32 {
    (producer_node_id * 0x1_0000 + timeout_ms) as u32
}

/// The entry of object 0x1016 that makes a motor watch for the heartbeat of
/// `producer_node_id`. A node id or a timeout of 0 leaves the entry unused.
pub fn encode_consumer_heartbeat_entry(producer_node_id: u8, timeout_ms: u16) -> (r: u32)
    ensures
        r == consumer_entry(producer_node_id, timeout_ms),
{
    producer_node_id as u32 * 0x1_0000 + timeout_ms as u32
}

/// The heartbeat that a node sends is read as that node's, in that state.
pub proof fn sent_heartbeat_is_read_back(frame: Frame, nid: u8, state: NmtState)
    requires
        1 <= nid <= 127,
        frame.is_data(FrameId::Standard(heartbeat_cob_id(nid)), seq![state.code()]),
    ensures
        is_heartbeat(frame, nid, state),
{
}

/// A consumer entry determines the watched node and the timeout, and is 0 only
/// for node 0 without a timeout.
pub proof fn consumer_entry_is_faithful(nid1: u8, ms1: u16, nid2: u8, ms2: u16)
    requires
        consumer_entry(nid1, ms1) == consumer_entry(nid2, ms2),
    ensures
        nid1 == nid2,
        ms1 == ms2,
        consumer_entry(nid1, ms1) == 0 <==> nid1 == 0 && ms1 == 0,
        consumer_entry(nid1, ms1) < 0x100_0000,
{
}

/// A consumer entry is read as the motor reads it: the node above the lower
/// sixteen bits, the timeout in them.
pub proof fn consumer_entry_is_read_back(nid: u8, ms: u16)
    ensures
        consumer_entry(nid, ms) as int / 0x1_0000 == nid,
        consumer_entry(nid, ms) as int % 0x1_0000 == ms,
{
}

/// Heartbeats of different nodes have different identifiers, in the order of
/// the nodes, and all lie in the range of heartbeats. Of a node id only the
/// lower seven bits count.
pub proof fn heartbeat_ids_follow_the_nodes(a: u8, b: u8)
    ensures
        0x700 <= heartbeat_cob_id(a) <= 0x77F,
        a <= 127 && b <= 127 ==> heartbeat_cob_id(a) - heartbeat_cob_id(b) == a - b,
        heartbeat_cob_id(0) == 0x700,
        a >= 128 ==> heartbeat_cob_id(a) == heartbeat_cob_id((a - 128) as u8),
{
}

} // verus!
