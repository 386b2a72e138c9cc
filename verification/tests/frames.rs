use hex_motor::canopen::frame::{Frame, FrameId, FrameKind};
use hex_motor::canopen::heartbeat::{build_heartbeat_frame, encode_consumer_heartbeat_entry};
use hex_motor::canopen::nmt::{build_nmt_command, parse_heartbeat, NmtCommand, NmtState};
use hex_motor::error::TransportError;
use hex_motor::Error;

fn frame(cob_id: u16, data: &[u8]) -> Frame {
    Frame::new_data(FrameId::Standard(cob_id), data).unwrap()
}

#[test]
fn hb_frame_format() {
    let f = build_heartbeat_frame(0x10, NmtState::Operational).unwrap();
    assert_eq!(f.id(), FrameId::Standard(0x710));
    assert_eq!(f.data(), &[0x05]);
}

#[test]
fn hb_frame_preop() {
    let f = build_heartbeat_frame(0x10, NmtState::PreOperational).unwrap();
    assert_eq!(f.data(), &[0x7F]);
}

#[test]
fn consumer_entry_typical() {
    let e = encode_consumer_heartbeat_entry(0x10, 250);
    assert_eq!(e, 0x0010_00FA);
}

#[test]
fn consumer_entry_disable() {
    assert_eq!(encode_consumer_heartbeat_entry(0, 0), 0);
}

#[test]
fn nmt_cmd_start_node() {
    let f = build_nmt_command(NmtCommand::StartRemoteNode, 0x10).unwrap();
    assert_eq!(f.id(), FrameId::Standard(0x000));
    assert_eq!(f.data(), &[0x01, 0x10]);
}

#[test]
fn nmt_cmd_broadcast_preop() {
    let f = build_nmt_command(NmtCommand::EnterPreOperational, 0).unwrap();
    assert_eq!(f.data(), &[0x80, 0x00]);
}

#[test]
fn parse_hb_operational() {
    assert_eq!(parse_heartbeat(&frame(0x710, &[0x05])), Some((0x10, NmtState::Operational)));
}

#[test]
fn parse_hb_bootup() {
    assert_eq!(parse_heartbeat(&frame(0x711, &[0x00])), Some((0x11, NmtState::BootUp)));
}

#[test]
fn parse_hb_preop() {
    assert_eq!(parse_heartbeat(&frame(0x77F, &[0x7F])), Some((0x7F, NmtState::PreOperational)));
}

#[test]
fn parse_hb_wrong_size() {
    assert_eq!(parse_heartbeat(&frame(0x710, &[0x05, 0x00])), None);
}

#[test]
fn parse_hb_wrong_cob() {
    assert_eq!(parse_heartbeat(&frame(0x180, &[0x05])), None);
}

#[test]
fn parse_hb_unknown_state_byte() {
    assert_eq!(parse_heartbeat(&frame(0x710, &[0x42])), None);
}

#[test]
fn parse_hb_node_zero() {
    assert_eq!(parse_heartbeat(&frame(0x700, &[0x05])), None);
}

#[test]
fn only_classic_standard_data_frames_are_heartbeats() {
    let fd = Frame {
        id: FrameId::Standard(0x710),
        kind: FrameKind::Fd { brs: true },
        data: vec![0x05],
    };
    assert_eq!(parse_heartbeat(&fd), None);
    let extended = Frame {
        id: FrameId::Extended(0x710),
        kind: FrameKind::Data,
        data: vec![0x05],
    };
    assert_eq!(parse_heartbeat(&extended), None);
}

#[test]
fn sent_heartbeats_are_read_back() {
    let states = [
        NmtState::BootUp,
        NmtState::Stopped,
        NmtState::Operational,
        NmtState::PreOperational,
    ];
    for nid in 1..=127u8 {
        for state in states {
            let f = build_heartbeat_frame(nid, state).unwrap();
            assert_eq!(parse_heartbeat(&f), Some((nid, state)));
        }
    }
}

#[test]
fn classic_frames_hold_up_to_eight_bytes() {
    let f = Frame::new_data(FrameId::Extended(0x1234_5678), &[1, 2, 3, 4, 5, 6, 7, 8]).unwrap();
    assert_eq!(f.id(), FrameId::Extended(0x1234_5678));
    assert_eq!(f.kind(), FrameKind::Data);
    assert_eq!(f.data(), &[1, 2, 3, 4, 5, 6, 7, 8]);
    let e = Frame::new_data(FrameId::Standard(0x123), &[0; 9]).unwrap_err();
    assert_eq!(e, Error::Transport(TransportError::DataTooLong { got: 9, max: 8 }));
}

#[test]
fn nmt_bytes_are_read_back() {
    for b in 0..=255u8 {
        if let Some(s) = NmtState::try_from_byte(b) {
            assert_eq!(s.byte(), b);
        }
    }
    assert_eq!(NmtState::try_from_byte(0x04), Some(NmtState::Stopped));
    assert_eq!(NmtState::try_from_byte(0x01), None);
    assert_eq!(NmtCommand::ResetNode.byte(), 0x81);
    assert_eq!(NmtCommand::ResetCommunication.byte(), 0x82);
    assert_eq!(NmtCommand::StopRemoteNode.byte(), 0x02);
}

#[test]
fn consumer_entry_limits() {
    assert_eq!(encode_consumer_heartbeat_entry(255, 65_535), 0x00FF_FFFF);
}
