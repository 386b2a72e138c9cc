use hex_motor::canopen::frame::{FrameId, FrameKind};
use hex_motor::canopen::nmt::NmtState;
use hex_motor::canopen::tpdo_config::SdoWrite;
use hex_motor::cia402::initialize::{
    default_tpdo1_comm, default_tpdo1_entries, default_tpdo1_recipe, default_tpdo2_comm,
    default_tpdo2_entries, default_tpdo2_recipe, poll_nmt_state, Action, InitializeRun, OnReply,
    Poll, Progress, Reply,
};
use hex_motor::cia402::options::Cia402ManagerOptions;
use hex_motor::time::{Duration, Instant};
use hex_motor::Error;

#[test]
fn default_tpdo1_is_12_bytes_4_entries() {
    let r = default_tpdo1_recipe(0x10);
    assert_eq!(r.total_bytes(), 12);
    assert_eq!(r.entries.len(), 4);
    assert_eq!(r.cob_id, 0x190);
    assert_eq!(r.tpdo_index, 0);
    assert!(r.validate().is_ok());
}

#[test]
fn default_tpdo2_is_10_bytes_5_entries() {
    let r = default_tpdo2_recipe(0x10);
    assert_eq!(r.total_bytes(), 10);
    assert_eq!(r.entries.len(), 5);
    assert_eq!(r.cob_id, 0x290);
    assert_eq!(r.tpdo_index, 1);
    assert!(r.validate().is_ok());
}

#[test]
fn default_tpdo1_timing_is_high_speed() {
    assert_eq!(default_tpdo1_comm().transmission_type, 255);
    assert_eq!(default_tpdo1_comm().inhibit_time_x100us, 5);
    assert_eq!(default_tpdo1_comm().event_timer_ms, 1);
}

#[test]
fn default_tpdo2_timing_is_low_speed() {
    assert_eq!(default_tpdo2_comm().transmission_type, 255);
    assert_eq!(default_tpdo2_comm().inhibit_time_x100us, 190);
    assert_eq!(default_tpdo2_comm().event_timer_ms, 20);
}

#[test]
fn tpdo1_and_tpdo2_use_different_cob_and_index() {
    let r1 = default_tpdo1_recipe(0x21);
    let r2 = default_tpdo2_recipe(0x21);
    assert_eq!(r1.cob_id, 0x1A1);
    assert_eq!(r2.cob_id, 0x2A1);
    assert_ne!(r1.tpdo_index, r2.tpdo_index);
}

#[test]
fn default_mappings() {
    let packed: Vec<u32> = default_tpdo1_entries().iter().map(|e| e.packed()).collect();
    assert_eq!(packed, vec![0x6064_0020, 0x1013_0020, 0x6077_0010, 0x603F_0010]);
    let packed: Vec<u32> = default_tpdo2_entries().iter().map(|e| e.packed()).collect();
    assert_eq!(
        packed,
        vec![0x6041_0010, 0x2204_0110, 0x2204_0210, 0x6040_0010, 0x603F_0010]
    );
}

const FAULTY: [u8; 2] = [0x08, 0x00];
const CLEAN: [u8; 2] = [0x40, 0x02];

fn options(attempts: u8) -> Cia402ManagerOptions {
    Cia402ManagerOptions { init_fault_clear_attempts: attempts, ..Default::default() }
}

/// Carries a course out: every action succeeds, checks for a fault read the
/// given words in turn. Returns the actions, in words, and how it ended.
fn carry_out(run: &mut InitializeRun, words: &[[u8; 2]]) -> (Vec<String>, Progress) {
    let mut log = Vec::new();
    let mut words = words.iter();
    loop {
        let step = run.action();
        let (line, reply) = match &step.action {
            Action::Send(f) => {
                assert_eq!(f.id(), FrameId::Standard(0));
                (format!("send {:02X?}", f.data()), Reply::Done)
            }
            Action::AwaitNmt { state, timeout } => {
                (format!("await {:?} {}", state, timeout.as_millis()), Reply::Done)
            }
            Action::Upload { index, subindex } => {
                let line = format!("read {index:04X}:{subindex:02X}");
                let reply = match step.on_reply {
                    OnReply::CheckFault => Reply::Data(words.next().unwrap()),
                    OnReply::KeepPeak => Reply::Data(&[0, 0, 0x80, 0x40]),
                    OnReply::KeepFactor => Reply::Failed,
                    _ => Reply::Data(&FAULTY),
                };
                (line, reply)
            }
            Action::Download(SdoWrite { index, subindex, data }) => {
                (format!("write {index:04X}:{subindex:02X} {data:02X?}"), Reply::Done)
            }
            Action::Sleep(d) => (format!("sleep {}", d.as_millis()), Reply::Done),
        };
        log.push(line);
        match run.reply(reply) {
            Progress::Next => {}
            Progress::Peak(p) => log.push(format!("peak {}", f32::from_bits(p.bits))),
            Progress::Factor(p) => log.push(format!("factor {}", f32::from_bits(p.bits))),
            end => return (log, end),
        }
    }
}

fn attempt() -> Vec<&'static str> {
    vec![
        "write 1016:01 [00, 00, 00, 00]",
        "write 6040:00 [00, 00]",
        "sleep 50",
        "write 6040:00 [80, 00]",
        "sleep 50",
        "write 6040:00 [00, 00]",
        "sleep 50",
        "write 1016:01 [FA, 00, 10, 00]",
        "sleep 350",
        "read 6041:00",
    ]
}

#[test]
fn initialization_in_order() {
    let mut run = InitializeRun::new(0x21, &options(6));
    let (log, end) = carry_out(&mut run, &[FAULTY, CLEAN]);
    assert!(matches!(end, Progress::Cleared));
    let mut expected = vec![
        "send [80, 21]",
        "await PreOperational 1000",
        "read 6041:00",
        "write 1800:01 [A1, 01, 00, C0]",
        "write 1A00:00 [00]",
        "write 1A00:01 [20, 00, 64, 60]",
        "write 1A00:02 [20, 00, 13, 10]",
        "write 1A00:03 [10, 00, 77, 60]",
        "write 1A00:04 [10, 00, 3F, 60]",
        "write 1A00:00 [04]",
        "write 1800:02 [FF]",
        "write 1800:03 [05, 00]",
        "write 1800:05 [01, 00]",
        "write 1800:01 [A1, 01, 00, 40]",
        "write 1801:01 [A1, 02, 00, C0]",
        "write 1A01:00 [00]",
        "write 1A01:01 [10, 00, 41, 60]",
        "write 1A01:02 [10, 01, 04, 22]",
        "write 1A01:03 [10, 02, 04, 22]",
        "write 1A01:04 [10, 00, 40, 60]",
        "write 1A01:05 [10, 00, 3F, 60]",
        "write 1A01:00 [05]",
        "write 1801:02 [FF]",
        "write 1801:03 [BE, 00]",
        "write 1801:05 [14, 00]",
        "write 1801:01 [A1, 02, 00, 40]",
        "read 6076:00",
        "peak 4",
        "read 2003:07",
        "write 2003:06 [E8, 03]",
        "send [01, 21]",
        "await Operational 1000",
    ];
    expected.extend(attempt());
    expected.extend(attempt());
    assert_eq!(log, expected);
}

#[test]
fn a_fault_that_stays_ends_in_an_error() {
    for (allowed, made) in [(0, 1), (1, 1), (3, 3)] {
        let mut run = InitializeRun::new(5, &options(allowed));
        let (log, end) = carry_out(&mut run, &[FAULTY; 3]);
        assert_eq!(log.len(), 32 + 10 * made);
        match end {
            Progress::Stop(Some(e)) => assert_eq!(
                e,
                Error::Internal(format!(
                    "nid 0x05: could not clear heartbeat/CiA402 fault after {made} attempts; \
                     motor may need a power cycle"
                ))
            ),
            _ => panic!("the fault stays"),
        }
    }
}

/// Lets every action succeed up to the first with this reply rule.
fn advance(run: &mut InitializeRun, to: OnReply) {
    while run.action().on_reply != to {
        let reply = match run.action().on_reply {
            OnReply::RequireWord => Reply::Data(&CLEAN),
            _ => Reply::Done,
        };
        assert!(matches!(run.reply(reply), Progress::Next));
    }
}

#[test]
fn a_failed_action_stops_unless_it_may_fail() {
    let mut run = InitializeRun::new(5, &options(1));
    assert!(matches!(run.reply(Reply::Failed), Progress::Stop(None)));

    advance(&mut run, OnReply::RequireWord);
    assert!(matches!(run.reply(Reply::Failed), Progress::Stop(None)));
    match run.reply(Reply::Data(&[1])) {
        Progress::Stop(Some(e)) => {
            assert_eq!(e, Error::Internal("expected 2 bytes for 0x6041:00, got 1".to_string()))
        }
        _ => panic!("one byte is no word"),
    }

    advance(&mut run, OnReply::KeepPeak);
    assert!(matches!(run.reply(Reply::Data(&[1, 2, 3])), Progress::Next));
    match run.reply(Reply::Data(&0.25f32.to_le_bytes())) {
        Progress::Factor(f) => assert_eq!(f32::from_bits(f.bits), 0.25),
        _ => panic!("the factor is kept"),
    }
    assert_eq!(run.action().on_reply, OnReply::Ignore);
    assert!(matches!(run.reply(Reply::Failed), Progress::Next));

    advance(&mut run, OnReply::CheckFault);
    assert!(matches!(run.reply(Reply::Data(&CLEAN)), Progress::Cleared));
}

#[test]
fn a_word_that_cannot_be_read_is_no_cleared_fault() {
    for reply in [Reply::Failed, Reply::Done, Reply::Data(&[0])] {
        let mut run = InitializeRun::new(5, &options(2));
        advance(&mut run, OnReply::CheckFault);
        assert!(matches!(run.reply(reply), Progress::Next));
    }
}

#[test]
fn long_timeouts_are_cut_to_what_fits() {
    let opts = Cia402ManagerOptions {
        heartbeat_node_id: 0x7F,
        consumer_heartbeat_timeout: Duration::from_millis(70_000),
        ..options(1)
    };
    let mut run = InitializeRun::new(5, &opts);
    let (log, _) = carry_out(&mut run, &[CLEAN]);
    assert!(log.contains(&"write 1016:01 [FF, FF, 7F, 00]".to_string()));
    assert!(log.contains(&"sleep 70100".to_string()));
}

#[test]
fn waiting_for_a_state() {
    let at = |ms: u64| Instant { nanos: Duration::from_millis(ms).nanos };
    let pre = NmtState::PreOperational;
    assert!(matches!(poll_nmt_state(5, pre, Some(pre), at(0), None), Poll::Reached));
    match poll_nmt_state(5, pre, None, at(0), None) {
        Poll::Wait(d) => assert_eq!(d, Duration::from_millis(20)),
        _ => panic!("it is waited for"),
    }
    let late = Some(at(100));
    assert!(matches!(poll_nmt_state(5, pre, None, at(99), late), Poll::Wait(_)));
    assert!(matches!(poll_nmt_state(5, pre, Some(pre), at(100), late), Poll::Reached));
    match poll_nmt_state(5, pre, None, at(100), late) {
        Poll::GivenUp(e) => assert_eq!(
            e,
            Error::Internal(
                "nid 0x05: timeout waiting NMT PreOperational (last observed None)".to_string()
            )
        ),
        _ => panic!("it is given up"),
    }
    match poll_nmt_state(0xA, NmtState::Operational, Some(NmtState::Stopped), at(100), late) {
        Poll::GivenUp(e) => assert_eq!(
            e,
            Error::Internal(
                "nid 0x0A: timeout waiting NMT Operational (last observed Some(Stopped))"
                    .to_string()
            )
        ),
        _ => panic!("it is given up"),
    }
}

#[test]
fn commands_are_data_frames() {
    let run = InitializeRun::new(5, &options(1));
    match &run.action().action {
        Action::Send(frame) => {
            assert_eq!(frame.kind, FrameKind::Data);
            assert_eq!(frame.data, vec![0x80, 5]);
        }
        other => panic!("unexpected {other:?}"),
    }
}
