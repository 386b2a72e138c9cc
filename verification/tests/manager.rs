use hex_motor::canopen::frame::{Frame, FrameId, FrameKind};
use hex_motor::canopen::nmt::NmtState;
use hex_motor::canopen::tpdo_config::SdoWrite;
use hex_motor::cia402::discovery::{
    foreign_heartbeat, tick_period, uninit_threshold, IdentifyProgress, IdentifyRun,
};
use hex_motor::cia402::events::Cia402Event;
use hex_motor::cia402::inflight::InflightOps;
use hex_motor::cia402::initialize::Poll;
use hex_motor::cia402::manager::Cia402Manager;
use hex_motor::cia402::motor_entry::Change;
use hex_motor::cia402::options::{BackgroundTask, Cia402ManagerOptions};
use hex_motor::cia402::sequences::ScaledTarget;
use hex_motor::cia402::subscribe::{OverflowPolicy, StatusStreamItem, StreamOptions};
use hex_motor::cia402::tpdo_listener::{tpdo_sender, Filtered, TpdoKind};
use hex_motor::cia402::types::{Logic, MotorLifecycle, ReinitReason};
use hex_motor::cia402::velocity::{FilterStep, FilterSums};
use hex_motor::number::Real32;
use hex_motor::time::{Duration, Instant};
use hex_motor::types::{MotorErrorKind, MotorIdentity, MotorMode, MotorTarget};
use hex_motor::Error;

fn at(ms: u64) -> Instant {
    Instant { nanos: Duration::from_millis(ms).nanos }
}

fn manager() -> Cia402Manager {
    Cia402Manager::new(Cia402ManagerOptions::default()).unwrap()
}

fn heartbeat(nid: u8, state: NmtState) -> Frame {
    Frame::new_data(FrameId::Standard(0x700 + nid as u16), &[state.byte()]).unwrap()
}

fn fd(cob_id: u16, data: Vec<u8>) -> Frame {
    Frame { id: FrameId::Standard(cob_id), kind: FrameKind::Fd { brs: true }, data }
}

fn tpdo1(nid: u8, pos: f32, ts: u32, permille: i16) -> Frame {
    let mut data = pos.to_le_bytes().to_vec();
    data.extend(ts.to_le_bytes());
    data.extend(permille.to_le_bytes());
    data.extend(0u16.to_le_bytes());
    fd(0x180 + nid as u16, data)
}

fn tpdo2(nid: u8, status: u16, error_code: u16) -> Frame {
    let mut data = status.to_le_bytes().to_vec();
    data.extend(425i16.to_le_bytes());
    data.extend((-10i16).to_le_bytes());
    data.extend(0x000Fu16.to_le_bytes());
    data.extend(error_code.to_le_bytes());
    fd(0x280 + nid as u16, data)
}

fn unfiltered() -> Filtered {
    Filtered {
        torque_nm: Real32::from_bits(0),
        sums: FilterSums { time_s: 0, pos: 0, cutoff: None },
        velocity: None,
    }
}

fn identity(nid: u8) -> MotorIdentity {
    MotorIdentity {
        node_id: nid,
        vendor_id: 1,
        product_code: 2,
        revision_number: 3,
        serial_number: 4,
        product_name: None,
    }
}

fn names(change: &Change) -> Vec<String> {
    change.events.iter().map(|e| format!("{e:?}")).collect()
}

/// A manager with one motor that has come as far as `Initialized`.
fn initialized(nid: u8) -> Cia402Manager {
    let mut m = manager();
    m.handle_heartbeat(&heartbeat(nid, NmtState::Operational), at(0)).unwrap();
    m.identified(nid, identity(nid));
    m.initialize(nid).unwrap();
    m.keep_peak(nid, Real32::from_bits(4.0f32.to_bits()));
    m.keep_factor(nid, Real32::from_bits(0.01f32.to_bits()));
    m.finish_initialize(nid);
    m.release(nid);
    m
}

fn lifecycle(m: &Cia402Manager, nid: u8) -> MotorLifecycle {
    m.list().iter().find(|i| i.node_id == nid).unwrap().lifecycle
}

fn internal(text: &str) -> Error {
    Error::Internal(text.to_string())
}

fn busy(nid: u8, op: &str) -> Error {
    Error::Internal(format!(
        "nid 0x{nid:02X}: another exclusive op already in progress (requested: {op})"
    ))
}

#[test]
fn default_options() {
    let o = Cia402ManagerOptions::default();
    assert_eq!(o.heartbeat_node_id, 0x10);
    assert_eq!(o.heartbeat_period, Duration::from_millis(50));
    assert_eq!(o.consumer_heartbeat_timeout, Duration::from_millis(250));
    assert_eq!(o.sdo_timeout, Duration::from_millis(200));
    assert_eq!(o.mode_confirm_timeout, Duration::from_millis(1000));
    assert_eq!(o.events_capacity, 256);
    assert_eq!(o.motor_heartbeat_period, Duration::from_millis(500));
    assert_eq!(o.initialized_stale_threshold, Duration::from_millis(200));
    assert_eq!(o.velocity_window, Duration::from_millis(15));
    assert_eq!(o.init_fault_clear_attempts, 6);
    assert!(o.broadcast_heartbeat);
    assert_eq!(o.validate(), Ok(()));
    assert_eq!(*manager().options(), o);
}

#[test]
fn senseless_options_are_refused() {
    let o = Cia402ManagerOptions::default;
    let zero = Duration { nanos: 0 };
    for (opts, text) in [
        (
            Cia402ManagerOptions { heartbeat_node_id: 0, ..o() },
            "heartbeat_node_id must be 1..=127, got 0x00",
        ),
        (
            Cia402ManagerOptions { heartbeat_node_id: 0x80, ..o() },
            "heartbeat_node_id must be 1..=127, got 0x80",
        ),
        (Cia402ManagerOptions { heartbeat_period: zero, ..o() }, "heartbeat_period must be > 0"),
        (Cia402ManagerOptions { events_capacity: 0, ..o() }, "events_capacity must be > 0"),
        (
            Cia402ManagerOptions { motor_heartbeat_period: zero, ..o() },
            "motor_heartbeat_period must be > 0",
        ),
        (
            Cia402ManagerOptions { initialized_stale_threshold: zero, ..o() },
            "initialized_stale_threshold must be > 0",
        ),
    ] {
        assert_eq!(Cia402Manager::new(opts).unwrap_err(), internal(text));
    }
}

#[test]
fn background_tasks_follow_the_options() {
    let mut o = Cia402ManagerOptions::default();
    let rest = [
        BackgroundTask::Discovery,
        BackgroundTask::TpdoListener,
        BackgroundTask::LivenessMonitor,
    ];
    assert_eq!(o.background_tasks()[0], BackgroundTask::HeartbeatBroadcast);
    assert_eq!(o.background_tasks()[1..], rest);
    o.broadcast_heartbeat = false;
    assert_eq!(o.background_tasks(), rest);
}

#[test]
fn a_node_appears_with_its_first_heartbeat() {
    let mut m = manager();
    assert!(m.list().is_empty());
    let c = m.handle_heartbeat(&heartbeat(0x21, NmtState::BootUp), at(3)).unwrap();
    assert_eq!(names(&c), vec!["NodeAppeared { nid: 33 }", "NodeOnline { nid: 33 }"]);
    assert!(c.identify);
    assert_eq!(c.nid, 0x21);
    assert_eq!(c.live.connection.last_heartbeat, Some(at(3)));
    assert_eq!(c.live.connection.nmt_state, Some(NmtState::BootUp));
    assert!(c.live.connection.online);

    let c = m.handle_heartbeat(&heartbeat(0x21, NmtState::PreOperational), at(503)).unwrap();
    assert!(c.events.is_empty());
    assert!(c.identify);
    assert_eq!(m.nmt_state(0x21), Some(NmtState::PreOperational));
    assert_eq!(m.nmt_state(0x22), None);
}

#[test]
fn our_own_heartbeat_is_ignored() {
    let mut m = manager();
    assert!(m.handle_heartbeat(&heartbeat(0x10, NmtState::Operational), at(0)).is_none());
    assert!(m.handle_heartbeat(&tpdo2(0x21, 0, 0), at(0)).is_none());
    assert!(m.list().is_empty());
    let f = heartbeat(5, NmtState::Stopped);
    assert_eq!(foreign_heartbeat(&f, 6), Some((5, NmtState::Stopped)));
    assert_eq!(foreign_heartbeat(&f, 5), None);
}

#[test]
fn motors_are_listed_by_node_id() {
    let mut m = manager();
    for nid in [0x30, 0x05, 0x7F, 0x11] {
        m.handle_heartbeat(&heartbeat(nid, NmtState::Operational), at(0)).unwrap();
    }
    let ids: Vec<u8> = m.list().iter().map(|i| i.node_id).collect();
    assert_eq!(ids, vec![0x05, 0x11, 0x30, 0x7F]);
    assert!(m.initialize_targets().is_empty());
    for nid in [0x30, 0x05] {
        m.identified(nid, identity(nid));
    }
    assert_eq!(m.initialize_targets(), vec![0x05, 0x30]);
    m.initialize(0x05).unwrap();
    assert_eq!(m.initialize_targets(), vec![0x30]);
}

#[test]
fn an_initialized_motor_that_leaves_operational_needs_reinit() {
    let mut m = initialized(5);
    assert!(m.list()[0].is_ready());
    let c = m.handle_heartbeat(&heartbeat(5, NmtState::Operational), at(1)).unwrap();
    assert!(c.events.is_empty());
    let c = m.handle_heartbeat(&heartbeat(5, NmtState::PreOperational), at(2)).unwrap();
    assert_eq!(names(&c), vec!["NeedsReinit { nid: 5, reason: LeftOperational }"]);
    assert!(!c.identify);
    let expected = MotorLifecycle::NeedsReinit { reason: ReinitReason::LeftOperational };
    assert_eq!(lifecycle(&m, 5), expected);
    assert_eq!(m.initialize_targets(), vec![5]);
    let c = m.handle_heartbeat(&heartbeat(5, NmtState::PreOperational), at(3)).unwrap();
    assert!(c.events.is_empty());
    assert_eq!(
        m.disable(5).unwrap_err(),
        Error::NotReady {
            nid: 5,
            lifecycle: "NeedsReinit { reason: LeftOperational }".to_string()
        }
    );
}

#[test]
fn identity_is_read_in_five_steps() {
    let mut run = IdentifyRun::new(0x21);
    for (sub, v) in [(1u8, 0x4859_444Cu32), (2, 0xAAAA_0001), (3, 7), (4, 9)] {
        assert_eq!(run.request(), (0x1018, sub));
        assert!(matches!(run.reply(Some(&v.to_le_bytes())), IdentifyProgress::More));
    }
    assert_eq!(run.request(), (0x1008, 0));
    match run.reply(Some(b"HEX-4310\0\0")) {
        IdentifyProgress::Done(id) => {
            assert_eq!(
                id,
                MotorIdentity {
                    node_id: 0x21,
                    vendor_id: 0x4859_444C,
                    product_code: 0xAAAA_0001,
                    revision_number: 7,
                    serial_number: 9,
                    product_name: Some("HEX-4310".to_string()),
                }
            );
        }
        _ => panic!("all was read"),
    }
    match run.reply(None) {
        IdentifyProgress::Done(id) => assert_eq!(id.product_name, None),
        _ => panic!("the name may be missing"),
    }
}

#[test]
fn identity_needs_all_four_numbers() {
    let mut run = IdentifyRun::new(3);
    assert!(matches!(run.reply(None), IdentifyProgress::Failed(None)));
    assert!(matches!(run.reply(Some(&[1, 0, 0, 0])), IdentifyProgress::More));
    match run.reply(Some(&[1, 0])) {
        IdentifyProgress::Failed(Some(e)) => {
            assert_eq!(e, internal("expected 4 bytes for 0x1018:02, got 2"))
        }
        _ => panic!("two bytes are too few"),
    }
}

#[test]
fn identified_motors_move_on() {
    let mut m = manager();
    let run = m.identify(9, at(0)).unwrap();
    assert_eq!(run.request(), (0x1018, 1));
    assert_eq!(lifecycle(&m, 9), MotorLifecycle::Unknown);
    assert_eq!(m.identify(9, at(0)).unwrap_err(), busy(9, "identify"));
    assert!(m.identify_if_idle(9).is_none());
    let event = m.identified(9, identity(9));
    assert!(matches!(event, Cia402Event::Identified { nid: 9, .. }));
    m.release(9);
    assert_eq!(lifecycle(&m, 9), MotorLifecycle::Identified);
    assert_eq!(m.list()[0].identity, Some(identity(9)));
    assert!(m.identify_if_idle(9).is_some());
    m.identified(77, identity(77));
    assert_eq!(m.list().len(), 1);
}

#[test]
fn identity_does_not_set_an_initialized_motor_back() {
    let mut m = initialized(5);
    m.identified(5, identity(5));
    assert_eq!(lifecycle(&m, 5), MotorLifecycle::Initialized);
}

#[test]
fn initialization_needs_an_identified_motor() {
    let mut m = manager();
    assert_eq!(m.initialize(5).unwrap_err(), internal("nid 0x05 not in list yet"));
    m.handle_heartbeat(&heartbeat(5, NmtState::Operational), at(0)).unwrap();
    assert_eq!(
        m.initialize(5).unwrap_err(),
        Error::NotReady { nid: 5, lifecycle: "Unknown".to_string() }
    );
    m.identified(5, identity(5));
    assert!(m.initialize(5).is_ok());
    assert_eq!(lifecycle(&m, 5), MotorLifecycle::Initializing);
    assert_eq!(m.initialize(5).unwrap_err(), busy(5, "initialize"));
    m.release(5);
    assert_eq!(
        m.initialize(5).unwrap_err(),
        internal("nid 0x05: initialize already running")
    );
    m.rollback_initialize(5);
    assert_eq!(lifecycle(&m, 5), MotorLifecycle::Identified);
    assert!(m.initialize(5).is_ok());
}

#[test]
fn initialization_forgets_what_was_known() {
    let mut m = initialized(5);
    m.set_mode(5, MotorMode::Torque).unwrap();
    m.release(5);
    m.handle_frame(TpdoKind::Tpdo2, &tpdo2(5, 0x0237, 0), at(1), unfiltered()).unwrap();
    assert_eq!(m.list()[0].logic, Some(Logic::Enabled(MotorMode::Torque)));
    assert!(m.list()[0].peak_torque_nm.is_some());
    m.initialize(5).unwrap();
    assert_eq!(m.list()[0].logic, None);
    assert_eq!(m.list()[0].peak_torque_nm, None);
    let c = m.target_context(5);
    assert_eq!((c.current_mode, c.peak_torque_nm, c.mit_kp_kd_factor), (None, None, None));
    let event = m.finish_initialize(5);
    assert!(matches!(event, Cia402Event::Initialized { nid: 5 }));
    m.rollback_initialize(5);
    assert_eq!(lifecycle(&m, 5), MotorLifecycle::Initialized);
}

#[test]
fn constants_are_kept_only_while_initializing() {
    let mut m = initialized(5);
    m.keep_peak(5, Real32::from_bits(0));
    m.keep_factor(5, Real32::from_bits(0));
    let c = m.target_context(5);
    assert_eq!(c.peak_torque_nm, Some(Real32::from_bits(4.0f32.to_bits())));
    assert_eq!(c.mit_kp_kd_factor, Some(Real32::from_bits(0.01f32.to_bits())));
}

#[test]
fn frames_bring_measurements() {
    let mut m = initialized(5);
    let c = m
        .handle_frame(
            TpdoKind::Tpdo1,
            &tpdo1(5, 0.25, 1000, -500),
            at(7),
            Filtered { torque_nm: Real32::from_bits((-2.0f32).to_bits()), ..unfiltered() },
        )
        .unwrap();
    assert!(c.events.is_empty());
    let got = c.live.measurements;
    assert_eq!(got.position_rev, Some(Real32::from_bits(0.25f32.to_bits())));
    assert_eq!(got.timestamp_us, Some(1000));
    let torque = got.torque.unwrap();
    assert_eq!(torque.permille, -500);
    assert_eq!(torque.peak_nm.bits, 4.0f32.to_bits());
    assert_eq!(torque.nm.bits, (-2.0f32).to_bits());
    assert_eq!(got.velocity_rev_per_s, None);
    assert_eq!(c.live.connection.last_tpdo, Some(at(7)));

    let c = m.handle_frame(TpdoKind::Tpdo2, &tpdo2(5, 0x0040, 0), at(8), unfiltered()).unwrap();
    let got = c.live.measurements;
    assert_eq!(got.status_word, Some(0x0040));
    assert_eq!(got.driver_temp_x10, Some(425));
    assert_eq!(got.motor_temp_x10, Some(-10));
    assert_eq!(got.timestamp_us, Some(1000));
    assert_eq!(c.live.logic, Some(Logic::Disabled));
}

#[test]
fn frames_feed_the_velocity_filter() {
    let mut m = initialized(5);
    let first = tpdo1(5, 0.1, 1000, 0);
    let (nid, f, step) = m.filter_input(TpdoKind::Tpdo1, &first).unwrap();
    assert_eq!((nid, f.timestamp_us, step), (5, 1000, FilterStep::Restart));
    let ignored = Filtered { velocity: Some(Real32::from_bits(1)), ..unfiltered() };
    let c = m.handle_frame(TpdoKind::Tpdo1, &first, at(1), ignored).unwrap();
    assert_eq!(c.live.measurements.velocity_rev_per_s, None);

    let second = tpdo1(5, 0.2, 2000, 0);
    let (_, _, step) = m.filter_input(TpdoKind::Tpdo1, &second).unwrap();
    let last_raw_pos = Real32::from_bits(0.1f32.to_bits());
    assert_eq!(step, FilterStep::Extend { dt_us: 1000, last_raw_pos });
    let filtered = Filtered {
        torque_nm: Real32::from_bits(0),
        sums: FilterSums { time_s: 11, pos: 22, cutoff: None },
        velocity: Some(Real32::from_bits(33)),
    };
    let c = m.handle_frame(TpdoKind::Tpdo1, &second, at(2), filtered).unwrap();
    assert_eq!(c.live.measurements.velocity_rev_per_s, Some(Real32::from_bits(33)));
    let samples: Vec<(u64, u64)> = m.filter(5).unwrap().samples.iter().copied().collect();
    assert_eq!(samples, vec![(0, 0), (11, 22)]);

    let c = m
        .handle_frame(TpdoKind::Tpdo1, &tpdo1(5, 0.2, 2000, 0), at(3), unfiltered())
        .unwrap();
    assert_eq!(c.live.measurements.velocity_rev_per_s, Some(Real32::from_bits(33)));
    assert!(m.filter_input(TpdoKind::Tpdo2, &second).is_none());
    assert!(m.filter_input(TpdoKind::Tpdo1, &tpdo1(6, 0.0, 0, 0)).is_none());
    assert!(m.filter(6).is_none());
}

#[test]
fn short_frames_still_show_that_the_motor_is_there() {
    let mut m = initialized(5);
    let gone = m.check_alive(at(5000), Duration::from_millis(1250), Duration::from_millis(200));
    assert_eq!(gone.len(), 1);
    let c = m
        .handle_frame(TpdoKind::Tpdo2, &fd(0x285, vec![0; 9]), at(5001), unfiltered())
        .unwrap();
    assert_eq!(names(&c), vec!["NodeOnline { nid: 5 }"]);
    assert_eq!(c.live.logic, None);
    assert_eq!(c.live.measurements.status_word, None);
}

#[test]
fn frames_of_unknown_nodes_are_ignored() {
    let mut m = initialized(5);
    assert!(m.handle_frame(TpdoKind::Tpdo1, &tpdo1(6, 0.0, 0, 0), at(1), unfiltered()).is_none());
    assert!(m.handle_frame(TpdoKind::Tpdo1, &fd(0x180, vec![0; 12]), at(1), unfiltered()).is_none());
    assert_eq!(m.list().len(), 1);
    let extended =
        Frame { id: FrameId::Extended(0x185), kind: FrameKind::Data, data: vec![0; 8] };
    assert_eq!(tpdo_sender(&extended), None);
    assert_eq!(tpdo_sender(&tpdo1(5, 0.0, 0, 0)), Some(5));
    assert_eq!(TpdoKind::Tpdo1.tag(), "TPDO1");
    assert_eq!(TpdoKind::Tpdo2.tag(), "TPDO2");
}

#[test]
fn a_fault_is_told_once() {
    let mut m = initialized(5);
    let mut tell = |sw: u16, code: u16, ms: u64| {
        names(&m.handle_frame(TpdoKind::Tpdo2, &tpdo2(5, sw, code), at(ms), unfiltered()).unwrap())
    };
    assert!(tell(0x0040, 0, 1).is_empty());
    assert_eq!(
        tell(0x0008, 0x2310, 2),
        vec!["EnteredError { nid: 5, kind: OverCurrent, raw: 8976 }"]
    );
    assert!(tell(0x0008, 0x3210, 3).is_empty());
    assert!(tell(0x0040, 0, 4).is_empty());
    assert_eq!(tell(0x000F, 1, 5), vec!["EnteredError { nid: 5, kind: Other, raw: 1 }"]);
}

#[test]
fn silent_motors_go_offline_once() {
    let (uninit, init) = (Duration::from_millis(1250), Duration::from_millis(200));
    let mut m = initialized(5);
    m.handle_heartbeat(&heartbeat(6, NmtState::PreOperational), at(0)).unwrap();
    assert!(m.check_alive(at(200), uninit, init).is_empty());
    let gone = m.check_alive(at(201), uninit, init);
    assert_eq!(gone.len(), 1);
    assert_eq!(names(&gone[0]), vec!["NodeOffline { nid: 5 }"]);
    assert!(!gone[0].live.connection.online);
    assert!(m.check_alive(at(1250), uninit, init).is_empty());
    let gone = m.check_alive(at(1251), uninit, init);
    assert_eq!(names(&gone[0]), vec!["NodeOffline { nid: 6 }"]);
    assert!(m.check_alive(at(9999), uninit, init).is_empty());
    let c = m.handle_heartbeat(&heartbeat(6, NmtState::PreOperational), at(9999)).unwrap();
    assert_eq!(names(&c), vec!["NodeOnline { nid: 6 }"]);
    m.forget_offline();
    let ids: Vec<u8> = m.list().iter().map(|i| i.node_id).collect();
    assert_eq!(ids, vec![6]);
}

#[test]
fn thresholds_and_tick() {
    let ms = Duration::from_millis;
    assert_eq!(uninit_threshold(ms(500)), ms(1250));
    assert_eq!(uninit_threshold(Duration { nanos: 1 }), Duration { nanos: 2 });
    assert_eq!(tick_period(ms(1250), ms(200)), ms(100));
    assert_eq!(tick_period(ms(300), ms(2000)), ms(150));
    assert_eq!(tick_period(ms(1250), ms(30)), ms(20));
    assert_eq!(tick_period(ms(5000), ms(4000)), ms(200));
}

#[test]
fn the_mode_is_set_and_confirmed() {
    let mut m = initialized(5);
    let w = m.set_mode(5, MotorMode::ProfileVelocity).unwrap();
    assert_eq!(w.len(), 5);
    assert_eq!(w[1], SdoWrite::i8(0x6060, 0, 3));
    assert_eq!(m.set_mode(5, MotorMode::Mit).unwrap_err(), busy(5, "set_mode"));
    let mode = MotorMode::ProfileVelocity;
    match m.poll_mode(5, mode, at(10), at(1000)) {
        Poll::Wait(d) => assert_eq!(d, Duration::from_millis(10)),
        _ => panic!("nothing has been reported"),
    }
    match m.poll_mode(5, mode, at(1000), at(1000)) {
        Poll::GivenUp(e) => assert_eq!(e, Error::ModeConfirmTimeout),
        _ => panic!("it is too late"),
    }
    m.handle_frame(TpdoKind::Tpdo2, &tpdo2(5, 0x0237, 0), at(20), unfiltered()).unwrap();
    assert!(matches!(m.poll_mode(5, mode, at(2000), at(1000)), Poll::Reached));
    assert!(matches!(m.poll_mode(5, MotorMode::Mit, at(20), at(1000)), Poll::Wait(_)));
    assert!(matches!(m.poll_mode(6, mode, at(20), at(1000)), Poll::Wait(_)));
    m.handle_frame(TpdoKind::Tpdo2, &tpdo2(5, 0x0008, 0x8130), at(30), unfiltered()).unwrap();
    match m.poll_mode(5, mode, at(30), at(1000)) {
        Poll::GivenUp(e) => assert_eq!(e, Error::InErrorState(MotorErrorKind::HeartbeatLost)),
        _ => panic!("the motor has a fault"),
    }
}

#[test]
fn a_motor_with_a_fault_keeps_its_mode() {
    let mut m = initialized(5);
    m.handle_frame(TpdoKind::Tpdo2, &tpdo2(5, 0x0008, 0x2310), at(1), unfiltered()).unwrap();
    assert_eq!(
        m.set_mode(5, MotorMode::Mit).unwrap_err(),
        Error::InErrorState(MotorErrorKind::OverCurrent)
    );
    assert_eq!(m.target_context(5).current_mode, None);
    assert!(m.clear_error(5).is_ok());
}

#[test]
fn control_needs_an_initialized_motor() {
    let mut m = manager();
    let not_listed = Error::NotReady { nid: 5, lifecycle: "not in list".to_string() };
    assert_eq!(m.disable(5).unwrap_err(), not_listed);
    assert_eq!(m.clear_error(5).unwrap_err(), not_listed);
    assert_eq!(m.set_max_torque(5, 1).unwrap_err(), not_listed);
    assert_eq!(m.set_mode(5, MotorMode::Mit).unwrap_err(), not_listed);
    m.handle_heartbeat(&heartbeat(5, NmtState::Operational), at(0)).unwrap();
    let unknown = Error::NotReady { nid: 5, lifecycle: "Unknown".to_string() };
    let none = ScaledTarget { permille: 0, kp: 0, kd: 0 };
    assert_eq!(m.set_target(5, &MotorTarget::Disable, none, "").unwrap_err(), unknown);

    let mut m = initialized(5);
    assert_eq!(m.disable(5).unwrap(), vec![SdoWrite::u16(0x6040, 0, 0x0006)]);
    assert_eq!(m.disable(5).unwrap_err(), busy(5, "disable"));
    assert_eq!(m.clear_error(5).unwrap_err(), busy(5, "clear_error"));
    assert_eq!(m.set_max_torque(5, 1).unwrap_err(), busy(5, "set_max_torque"));
    assert_eq!(m.read_position(5).unwrap_err(), busy(5, "read_position"));
    assert_eq!(
        m.set_position_preset(5, Real32::from_bits(0)).unwrap_err(),
        busy(5, "set_position_preset")
    );
    assert_eq!(
        m.set_target(5, &MotorTarget::Disable, none, "").unwrap_err(),
        busy(5, "set_target")
    );
    m.release(5);
    assert_eq!(m.clear_error(5).unwrap(), vec![SdoWrite::u16(0x6040, 0, 0x0080)]);
}

#[test]
fn a_refused_target_leaves_the_motor_free() {
    let mut m = initialized(5);
    let scaled = ScaledTarget { permille: 250, kp: 0, kd: 0 };
    let torque = MotorTarget::Torque { nm: Real32::from_bits(1.0f32.to_bits()) };
    assert_eq!(
        m.set_target(5, &torque, scaled, "4").unwrap_err(),
        internal("set_target: motor mode unknown (call set_mode first)")
    );
    m.set_mode(5, MotorMode::Torque).unwrap();
    m.release(5);
    assert_eq!(
        m.set_target(5, &torque, scaled, "4").unwrap(),
        vec![SdoWrite::i16(0x6071, 0, 250)]
    );
}

#[test]
fn configuration_needs_no_initialization() {
    let mut m = manager();
    assert_eq!(m.read_position(5).unwrap(), (0x6064, 0));
    assert_eq!(m.change_node_id(5, 6).unwrap_err(), busy(5, "change_node_id"));
    assert_eq!(
        m.change_node_id(5, 128).unwrap_err(),
        internal("new node id must be 1..=127, got 128")
    );
    m.release(5);
    assert_eq!(m.change_node_id(5, 6).unwrap().len(), 2);
    m.release(5);
    assert_eq!(m.set_position_preset(5, Real32::from_bits(0)).unwrap().len(), 3);
    assert!(m.list().is_empty());
}

#[test]
fn snapshots_are_published_and_streamed() {
    let mut m = manager();
    let opts = |capacity| StreamOptions { capacity, on_overflow: OverflowPolicy::Lagged };
    assert_eq!(m.subscribe_status(5, &opts(4)).unwrap_err(), Error::UnknownNode(5));
    assert_eq!(
        m.subscribe_status(5, &opts(0)).unwrap_err(),
        internal("subscribe_status: capacity must be > 0")
    );
    assert_eq!(m.status(5, at(77)).timestamp, at(77));
    let c = m.handle_heartbeat(&heartbeat(5, NmtState::Operational), at(1)).unwrap();
    let mut stream = m.subscribe_status(5, &opts(4)).unwrap();
    assert_eq!(
        stream.try_recv(),
        Some(StatusStreamItem::Sample(m.status(5, at(0))))
    );
    assert!(!m.status(5, at(2)).connection.online);
    m.publish(5, c.live);
    assert_eq!(m.status(5, at(2)), c.live);
    assert!(m.status(5, at(2)).connection.online);
    assert_eq!(stream.try_recv(), Some(StatusStreamItem::Sample(c.live)));
    m.publish(6, c.live);
    assert_eq!(m.list().len(), 1);
}

#[test]
fn one_operation_at_a_time() {
    let mut ops = InflightOps::new();
    assert!(ops.acquire(5, "a").is_ok());
    assert_eq!(ops.acquire(5, "b").unwrap_err(), busy(5, "b"));
    assert!(ops.acquire(6, "b").is_ok());
    ops.release(5);
    assert!(ops.claim(5));
    assert!(!ops.claim(5));
    assert!(!ops.claim(6));
}

#[test]
fn beginnings_and_failures_are_told() {
    let mut m = manager();
    m.handle_heartbeat(&heartbeat(5, NmtState::PreOperational), at(0)).unwrap();
    assert!(m.identify_if_idle(5).is_some());
    match m.identify_failed(5, "timed out".to_string()) {
        Cia402Event::IdentifyFailed { nid, reason } => {
            assert_eq!((nid, reason.as_str()), (5, "timed out"))
        }
        other => panic!("unexpected {other:?}"),
    }
    m.release(5);
    assert_eq!(lifecycle(&m, 5), MotorLifecycle::Unknown);
    assert_eq!(m.list()[0].identity, None);
    assert!(m.handle_heartbeat(&heartbeat(5, NmtState::PreOperational), at(1)).unwrap().identify);
    assert!(matches!(m.initialize_begun(5), Cia402Event::Initializing { nid: 5 }));
}

#[test]
fn a_removed_motor_that_appears_again_starts_anew() {
    let (uninit, init) = (Duration::from_millis(1250), Duration::from_millis(200));
    let mut m = manager();
    m.handle_heartbeat(&heartbeat(5, NmtState::PreOperational), at(0)).unwrap();
    assert!(m.identify_if_idle(5).is_some());
    assert_eq!(m.check_alive(at(2000), uninit, init).len(), 1);
    m.forget_offline();
    assert!(m.list().is_empty());
    let c = m.handle_heartbeat(&heartbeat(5, NmtState::Operational), at(2001)).unwrap();
    assert_eq!(names(&c), vec!["NodeAppeared { nid: 5 }", "NodeOnline { nid: 5 }"]);
    assert!(m.identify_if_idle(5).is_none());
    assert_eq!(m.nmt_state(5), Some(NmtState::PreOperational));
    m.identified(5, identity(5));
    assert_eq!(lifecycle(&m, 5), MotorLifecycle::Unknown);
    assert_eq!(m.list()[0].identity, None);
    m.release(5);
    assert_eq!(m.nmt_state(5), Some(NmtState::Operational));
    assert!(m.identify_if_idle(5).is_some());
    m.identified(5, identity(5));
    assert_eq!(lifecycle(&m, 5), MotorLifecycle::Identified);
}

#[test]
fn a_removed_motor_ends_its_initialization_alone() {
    let (uninit, init) = (Duration::from_millis(1250), Duration::from_millis(200));
    let mut m = manager();
    for nid in [5, 6] {
        m.handle_heartbeat(&heartbeat(nid, NmtState::PreOperational), at(0)).unwrap();
        m.identified(nid, identity(nid));
    }
    m.initialize(5).unwrap();
    assert_eq!(m.initialize_targets(), vec![6]);
    m.initialize(6).unwrap();
    m.handle_heartbeat(&heartbeat(6, NmtState::Operational), at(1999)).unwrap();
    assert_eq!(m.check_alive(at(2000), uninit, init).len(), 1);
    m.forget_offline();
    m.handle_heartbeat(&heartbeat(5, NmtState::PreOperational), at(2001)).unwrap();
    m.keep_peak(5, Real32::from_bits(4.0f32.to_bits()));
    m.finish_initialize(5);
    m.release(5);
    assert_eq!(lifecycle(&m, 5), MotorLifecycle::Unknown);
    assert_eq!(m.list()[0].peak_torque_nm, None);
    m.finish_initialize(6);
    m.release(6);
    assert_eq!(lifecycle(&m, 6), MotorLifecycle::Initialized);
}

#[test]
fn results_are_paired_with_their_motors() {
    let r = Cia402Manager::initialize_all_results(&vec![3, 7, 9], vec!["a", "b", "c"]);
    assert_eq!(r, vec![(3, "a"), (7, "b"), (9, "c")]);
    let none: Vec<(u8, bool)> = Cia402Manager::initialize_all_results(&vec![], vec![]);
    assert!(none.is_empty());
}
