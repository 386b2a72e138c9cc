//! Network management: commands to nodes, and the state that a node reports in
//! its heartbeat.

use vstd::prelude::*;

use super::frame::{Frame, FrameId, FrameKind};
use crate::error::Result;

verus! {

/// The network management state of a node.
#[derive(Debug, Clone, Copy, PartialEq, Eq, Hash, Structural)]
pub enum NmtState {
    /// 0x00: the node has just started.
    BootUp,
    /// 0x04: stopped.
    Stopped,
    /// 0x05: operational.
    Operational,
    /// 0x7F: pre-operational.
    PreOperational,
}

impl NmtState {
    /// The byte that stands for the state on the bus.
    pub open spec fn code(self) -> u8 {
        match self {
            NmtState::BootUp => 0x00,
            NmtState::Stopped => 0x04,
            NmtState::Operational => 0x05,
            NmtState::PreOperational => 0x7F,
        }
    }

    /// The name of the state.
    pub open spec fn text(self) -> Seq<char> {
        match self {
            NmtState::BootUp => "BootUp"@,
            NmtState::Stopped => "Stopped"@,
            NmtState::Operational => "Operational"@,
            NmtState::PreOperational => "PreOperational"@,
        }
    }

    /// The byte that stands for the state on the bus.
    pub fn byte(self) -> (r: u8)
        ensures
            r == self.code(),
    {
        match self {
            NmtState::BootUp => 0x00,
            NmtState::Stopped => 0x04,
            NmtState::Operational => 0x05,
            NmtState::PreOperational => 0x7F,
        }
    }

    /// The name of the state.
    pub fn name(self) -> (r: &'static str)
        ensures
            r@ == self.text(),
    {
        match self {
            NmtState::BootUp => "BootUp",
            NmtState::Stopped => "Stopped",
            NmtState::Operational => "Operational",
            NmtState::PreOperational => "PreOperational",
        }
    }

    /// The state that a byte stands for.
    pub fn try_from_byte(b: u8) -> (r: Option<Self>)
        ensures
            match r {
                Some(s) => s.code() == b,
                None => forall|s: NmtState| s.code() != b,
            },
    {
        match b {
            0x00 => Some(NmtState::BootUp),
            0x04 => Some(NmtState::Stopped),
            0x05 => Some(NmtState::Operational),
            0x7F => Some(NmtState::PreOperational),
            _ => None,
        }
    }
}

/// A command of the master to a node.
#[derive(Debug, Clone, Copy, PartialEq, Eq, Structural)]
pub enum NmtCommand {
    /// 0x01: go to operational.
    StartRemoteNode,
    /// 0x02: go to stopped.
    StopRemoteNode,
    /// 0x80: go to pre-operational.
    EnterPreOperational,
    /// 0x81: reset the node.
    ResetNode,
    /// 0x82: reset the communication.
    ResetCommunication,
}

impl NmtCommand {
    /// The command byte.
    pub open spec fn code(self) -> u8 {
        match self {
            NmtCommand::StartRemoteNode => 0x01,
            NmtCommand::StopRemoteNode => 0x02,
            NmtCommand::EnterPreOperational => 0x80,
            NmtCommand::ResetNode => 0x81,
            NmtCommand::ResetCommunication => 0x82,
        }
    }

    /// The command byte.
    pub fn byte(self) -> (r: u8)
        ensures
            r == self.code(),
    {
        match self {
            NmtCommand::StartRemoteNode => 0x01,
            NmtCommand::StopRemoteNode => 0x02,
            NmtCommand::EnterPreOperational => 0x80,
            NmtCommand::ResetNode => 0x81,
            NmtCommand::ResetCommunication => 0x82,
        }
    }
}

/// The payload of a command frame.
pub open spec fn command_payload(cmd: NmtCommand, target_node_id: u8) -> Seq<u8> {
    seq![cmd.code(), target_node_id]
}

/// The frame that gives a node a command. Node 0 addresses all nodes.
pub fn build_nmt_command(cmd: NmtCommand, target_node_id: u8) -> (r: Result<Frame>)
    ensures
        r matches Ok(f) && f.is_data(FrameId::Standard(0x000), command_payload(cmd, target_node_id)),
{
    let data = [cmd.byte(), target_node_id];
    assert(data@ =~= command_payload(cmd, target_node_id));
    Frame::new_data(FrameId::Standard(0x000), &data)
}

/// The frame is the heartbeat of node `nid` in state `state`.
pub open spec fn is_heartbeat(frame: Frame, nid: u8, state: NmtState) -> bool {
    &&& frame.kind == FrameKind::Data
    &&& frame.id matches FrameId::Standard(cob_id) && cob_id % 0x800 == 0x700 + nid
    &&& 1 <= nid <= 127
    &&& frame.data@ == seq![state.code()]
}

/// The node and the state that a heartbeat reports; `None` for any other
/// frame.
pub fn parse_heartbeat(frame: &Frame) -> (r: Option<(u8, NmtState)>)
    ensures
        match r {
            Some((nid, state)) => is_heartbeat(*frame, nid, state),
            None => forall|nid: u8, state: NmtState| !is_heartbeat(*frame, nid, state),
        },
{
    if frame.kind() != FrameKind::Data {
        return None;
    }
    let cob_id = match frame.id() {
        FrameId::Standard(cob_id) => cob_id,
        FrameId::Extended(_) => {
            return None;
        },
    };
    let low: u16 = cob_id % 0x800;
    if low / 0x80 != 0xE {
        return None;
    }
    let nid: u8 = (low % 0x80) as u8;
    if nid == 0 {
        return None;
    }
    let data = frame.data();
    if data.len() != 1 {
        return None;
    }
    match NmtState::try_from_byte(data[0]) {
        Some(state) => {
            assert(frame.data@ =~= seq![state.code()]);
            Some((nid, state))
        },
        None => {
            assert forall|n: u8, s: NmtState| !is_heartbeat(*frame, n, s) by {
                assert(seq![s.code()][0] == s.code());
            }
            None
        },
    }
}

/// A frame is the heartbeat of at most one node in one state.
pub proof fn heartbeat_is_unique(
    frame: Frame,
    nid1: u8,
    state1: NmtState,
    nid2: u8,
    state2: NmtState,
)
    requires
        is_heartbeat(frame, nid1, state1),
        is_heartbeat(frame, nid2, state2),
    ensures
        nid1 == nid2,
        state1 == state2,
{
    assert(seq![state1.code()][0] == seq![state2.code()][0]);
}

/// What is on the bus when a node reports a state: a classic data frame with
/// the identifier 0x700 and the node id, and the one byte of that state.
pub proof fn heartbeat_on_the_bus(frame: Frame, nid: u8, state: NmtState)
    requires
        is_heartbeat(frame, nid, state),
    ensures
        frame.kind is Data,
        1 <= nid <= 127,
        frame.id matches FrameId::Standard(cob_id) && cob_id % 0x800 - 0x700 == nid,
        frame.data@.len() == 1,
        frame.data@[0] == 0x00 <==> state is BootUp,
        frame.data@[0] == 0x04 <==> state is Stopped,
        frame.data@[0] == 0x05 <==> state is Operational,
        frame.data@[0] == 0x7F <==> state is PreOperational,
{
}

/// Every such frame is a heartbeat, whatever the node; other bytes are not.
pub proof fn heartbeats_are_recognized(frame: Frame, nid: u8, cob_id: u16)
    requires
        frame.kind is Data,
        frame.id == FrameId::Standard(cob_id),
        1 <= nid <= 127,
        cob_id % 0x800 == 0x700 + nid,
        frame.data@.len() == 1,
    ensures
        frame.data@[0] == 0x00 <==> is_heartbeat(frame, nid, NmtState::BootUp),
        frame.data@[0] == 0x04 <==> is_heartbeat(frame, nid, NmtState::Stopped),
        frame.data@[0] == 0x05 <==> is_heartbeat(frame, nid, NmtState::Operational),
        frame.data@[0] == 0x7F <==> is_heartbeat(frame, nid, NmtState::PreOperational),
{
    assert forall|s: NmtState| frame.data@[0] == s.code() implies is_heartbeat(frame, nid, s) by {
        assert(frame.data@ =~= seq![s.code()]);
    }
    assert(NmtState::BootUp.code() == 0x00);
    assert(NmtState::Stopped.code() == 0x04);
    assert(NmtState::Operational.code() == 0x05);
    assert(NmtState::PreOperational.code() == 0x7F);
    assert forall|s: NmtState| #[trigger] is_heartbeat(frame, nid, s) implies frame.data@[0]
        == s.code() by {}
}

/// A command is two bytes: which command, and for which node.
pub proof fn command_names_its_node(cmd: NmtCommand, nid: u8)
    ensures
        command_payload(cmd, nid).len() == 2,
        command_payload(cmd, nid)[1] == nid,
        command_payload(cmd, nid)[0] == 0x01 <==> cmd is StartRemoteNode,
        command_payload(cmd, nid)[0] == 0x02 <==> cmd is StopRemoteNode,
        command_payload(cmd, nid)[0] == 0x80 <==> cmd is EnterPreOperational,
        command_payload(cmd, nid)[0] == 0x81 <==> cmd is ResetNode,
        command_payload(cmd, nid)[0] == 0x82 <==> cmd is ResetCommunication,
{
}

/// The names of the states of a node.
pub proof fn names_of_nmt_states(s: NmtState)
    ensures
        s is BootUp ==> s.text() == "BootUp"@,
        s is Stopped ==> s.text() == "Stopped"@,
        s is Operational ==> s.text() == "Operational"@,
        s is PreOperational ==> s.text() == "PreOperational"@,
{
}

} // verus!
