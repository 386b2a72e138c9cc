//! Heartbeats of motors, reading of their identity, and who is still there.

use vstd::prelude::*;
use vstd::utf8::{decode_utf8, valid_utf8};

use super::events::Cia402Event;
use super::motor_entry::{Change, MotorEntryInner, MotorState};
use super::types::{MotorLifecycle, ReinitReason};
use crate::canopen::bytes::value32;
use crate::canopen::frame::Frame;
use crate::canopen::nmt::{is_heartbeat, parse_heartbeat, NmtState};
use crate::canopen::sdo::{decode_string, decode_u32, lossy_text, text_end, too_short};
use crate::error::Error;
use crate::time::{Duration, Instant, MAX_NANOS};
use crate::types::MotorIdentity;

verus! {

/// The identifiers of heartbeats begin here.
pub const HB_COB_BASE: u16 = 0x700;

/// The bits of an identifier that tell the object.
pub const HB_COB_MASK: u16 = 0x780;

/// The node and state of a heartbeat of some other node than ourselves.
pub fn foreign_heartbeat(frame: &Frame, our_hb_node_id: u8) -> (r: Option<(u8, NmtState)>)
    ensures
        match r {
            Some((nid, state)) => nid != our_hb_node_id && is_heartbeat(*frame, nid, state),
            None => forall|nid: u8, state: NmtState|
                is_heartbeat(*frame, nid, state) ==> nid == our_hb_node_id,
        },
{
    match parse_heartbeat(frame) {
        Some((nid, state)) => {
            if nid == our_hb_node_id {
                assert forall|n: u8, s: NmtState| is_heartbeat(*frame, n, s) implies n
                    == our_hb_node_id by {
                    crate::canopen::nmt::heartbeat_is_unique(*frame, nid, state, n, s);
                }
                None
            } else {
                Some((nid, state))
            }
        },
        None => None,
    }
}

impl MotorState {
    /// An initialized motor says that it is no longer operational.
    pub open spec fn leaves_operational(self, state: NmtState) -> bool {
        self.lifecycle is Initialized && !(state is Operational)
    }

    /// The motor after a heartbeat.
    pub open spec fn heard_heartbeat(self, state: NmtState, now: Instant) -> MotorState {
        MotorState {
            last_heartbeat: Some(now),
            nmt_state: Some(state),
            online: true,
            lifecycle: if self.leaves_operational(state) {
                MotorLifecycle::NeedsReinit { reason: ReinitReason::LeftOperational }
            } else {
                self.lifecycle
            },
            ..self
        }
    }

    /// What is told of a heartbeat: that the motor is back, and that it has to
    /// be initialized again.
    pub open spec fn heartbeat_events(self, nid: u8, state: NmtState) -> Seq<Cia402Event> {
        (if self.online {
            seq![]
        } else {
            seq![Cia402Event::NodeOnline { nid }]
        }) + (if self.leaves_operational(state) {
            seq![Cia402Event::NeedsReinit { nid, reason: ReinitReason::LeftOperational }]
        } else {
            seq![]
        })
    }

    /// How long the motor may be silent.
    pub open spec fn patience(self, uninit: Duration, init: Duration) -> Duration {
        if self.lifecycle is Initialized {
            init
        } else {
            uninit
        }
    }

    /// The motor was heard of recently enough.
    pub open spec fn alive(self, now: Instant, uninit: Duration, init: Duration) -> bool {
        self.seen() matches Some(t) && now.since(t).nanos <= self.patience(uninit, init).nanos
    }

    /// The motor was online and has been silent for too long.
    pub open spec fn falls_silent(self, now: Instant, uninit: Duration, init: Duration) -> bool {
        self.online && !self.alive(now, uninit, init)
    }

    /// The motor with the identity that was read.
    pub open spec fn identified(self, identity: MotorIdentity) -> MotorState {
        MotorState {
            identity: Some(identity),
            lifecycle: if self.lifecycle is Unknown {
                MotorLifecycle::Identified
            } else {
                self.lifecycle
            },
            ..self
        }
    }
}

impl MotorEntryInner {
    /// Takes a heartbeat of the motor.
    pub fn handle_inbound_hb(&mut self, nid: u8, state: NmtState, now: Instant) -> (r: Change)
        ensures
            final(self)@ == old(self)@.heard_heartbeat(state, now),
            r.nid == nid,
            r.events@ == old(self)@.heartbeat_events(nid, state),
            r.live == final(self)@.live(now),
            r.identify == (old(self)@.lifecycle is Unknown),
    {
        let was_online = self.online;
        let mut events: Vec<Cia402Event> = Vec::new();
        self.last_heartbeat = Some(now);
        self.nmt_state = Some(state);
        self.online = true;
        if !was_online {
            events.push(Cia402Event::NodeOnline { nid });
        }
        let left = matches!(self.lifecycle, MotorLifecycle::Initialized) && !matches!(
            state,
            NmtState::Operational
        );
        if left {
            let reason = ReinitReason::LeftOperational;
            self.lifecycle = MotorLifecycle::NeedsReinit { reason };
            events.push(Cia402Event::NeedsReinit { nid, reason });
        }
        let identify = matches!(self.lifecycle, MotorLifecycle::Unknown);
        assert(events@ =~= old(self)@.heartbeat_events(nid, state));
        Change { nid, events, live: self.build_live_state(now), identify }
    }

    /// Takes over the identity that was read.
    pub fn set_identity(&mut self, identity: MotorIdentity)
        ensures
            final(self)@ == old(self)@.identified(identity),
    {
        self.identity = Some(identity);
        if matches!(self.lifecycle, MotorLifecycle::Unknown) {
            self.lifecycle = MotorLifecycle::Identified;
        }
    }

    /// Looks whether the motor is still there. A motor that is offline stays
    /// so until it is heard of.
    pub fn check_alive(&mut self, nid: u8, now: Instant, uninit: Duration, init: Duration) -> (r:
        Option<Change>)
        ensures
            final(self)@ == (MotorState {
                online: old(self)@.online && old(self)@.alive(now, uninit, init),
                ..old(self)@
            }),
            r is Some <==> old(self)@.falls_silent(now, uninit, init),
            r matches Some(c) ==> {
                &&& c.nid == nid
                &&& c.events@ == seq![Cia402Event::NodeOffline { nid }]
                &&& c.live == final(self)@.live(now)
                &&& !c.identify
            },
    {
        if !self.online {
            return None;
        }
        let threshold = if matches!(self.lifecycle, MotorLifecycle::Initialized) {
            init
        } else {
            uninit
        };
        let alive = match self.last_seen() {
            Some(t) => now.saturating_duration_since(t).nanos <= threshold.nanos,
            None => false,
        };
        self.online = alive;
        if alive {
            return None;
        }
        let events = vec![Cia402Event::NodeOffline { nid }];
        assert(events@ =~= seq![Cia402Event::NodeOffline { nid }]);
        Some(Change { nid, events, live: self.build_live_state(now), identify: false })
    }
}

/// Two and a half periods of the heartbeat.
pub open spec fn two_and_a_half(period: Duration) -> Duration {
    Duration { nanos: (period.nanos * 5 / 2) as u128 }
}

/// How long a motor may be silent that is not initialized: two and a half
/// periods of its heartbeat.
pub fn uninit_threshold(motor_heartbeat_period: Duration) -> (r: Duration)
    requires
        motor_heartbeat_period.nanos * 5 <= MAX_NANOS,
    ensures
        r == two_and_a_half(motor_heartbeat_period),
{
    Duration { nanos: motor_heartbeat_period.nanos * 5 / 2 }
}

/// How often motors are looked after: half the smaller threshold, but at least
/// 20 ms and at most 200 ms.
pub open spec fn tick_of(uninit: Duration, init: Duration) -> Duration {
    let smaller = if init.nanos < uninit.nanos {
        init.nanos
    } else {
        uninit.nanos
    };
    let half = smaller as int / 2;
    if half < 20_000_000 {
        Duration::millis(20)
    } else if half > 200_000_000 {
        Duration::millis(200)
    } else {
        Duration { nanos: half as u128 }
    }
}

/// How often motors are looked after.
pub fn tick_period(uninit: Duration, init: Duration) -> (r: Duration)
    ensures
        r == tick_of(uninit, init),
{
    let smaller: u128 = if init.nanos < uninit.nanos {
        init.nanos
    } else {
        uninit.nanos
    };
    let half: u128 = smaller / 2;
    if half < 20_000_000 {
        Duration::from_millis(20)
    } else if half > 200_000_000 {
        Duration::from_millis(200)
    } else {
        Duration { nanos: half }
    }
}

/// The reading of an identity: 0x1018 subindex 1 to 4, which have to be there,
/// and 0x1008, which may be missing.
#[derive(Debug)]
pub struct IdentifyRun {
    nid: u8,
    /// What has been read of 0x1018.
    values: Vec<u32>,
}

/// What comes of a reply.
#[derive(Debug)]
pub enum IdentifyProgress {
    /// There is more to read.
    More,
    /// The identity.
    Done(MotorIdentity),
    /// It cannot be read: the reply is no number, or there was none.
    Failed(Option<Error>),
}

impl IdentifyRun {
    /// The node whose identity is read.
    pub closed spec fn node(self) -> u8 {
        self.nid
    }

    /// What has been read of 0x1018.
    pub closed spec fn read(self) -> Seq<u32> {
        self.values@
    }

    /// Not more than the four numbers have been read.
    pub open spec fn wf(self) -> bool {
        self.read().len() <= 4
    }

    /// What is read next: index and subindex.
    pub open spec fn wanted(self) -> (u16, u8) {
        if self.read().len() < 4 {
            (0x1018, (self.read().len() + 1) as u8)
        } else {
            (0x1008, 0)
        }
    }

    /// Begins to read the identity of a node.
    pub fn new(nid: u8) -> (r: Self)
        ensures
            r.node() == nid,
            r.read() == Seq::<u32>::empty(),
            r.wf(),
    {
        IdentifyRun { nid, values: Vec::new() }
    }

    /// What to read next: index and subindex.
    pub fn request(&self) -> (r: (u16, u8))
        requires
            self.wf(),
        ensures
            r == self.wanted(),
    {
        if self.values.len() < 4 {
            (0x1018, (self.values.len() + 1) as u8)
        } else {
            (0x1008, 0)
        }
    }

    /// Takes the reply to the last request; `None` where there was none.
    pub fn reply(&mut self, reply: Option<&[u8]>) -> (r: IdentifyProgress)
        requires
            old(self).wf(),
        ensures
            final(self).wf(),
            final(self).node() == old(self).node(),
            old(self).read().len() < 4 ==> match reply {
                None => r == IdentifyProgress::Failed(None) && final(self).read()
                    == old(self).read(),
                Some(data) => if data@.len() < 4 {
                    &&& r matches IdentifyProgress::Failed(Some(e))
                    &&& e.says(
                        too_short(
                            "expected 4 bytes"@,
                            old(self).wanted().0,
                            old(self).wanted().1,
                            data@.len(),
                        ),
                    )
                    &&& final(self).read() == old(self).read()
                } else {
                    r is More && final(self).read() == old(self).read().push(value32(data@, 0))
                },
            },
            old(self).read().len() == 4 ==> {
                &&& final(self).read() == old(self).read()
                &&& r matches IdentifyProgress::Done(id)
                &&& id.node_id == old(self).node()
                &&& id.vendor_id == old(self).read()[0]
                &&& id.product_code == old(self).read()[1]
                &&& id.revision_number == old(self).read()[2]
                &&& id.serial_number == old(self).read()[3]
                &&& match reply {
                    None => id.product_name is None,
                    Some(data) => {
                        let own = data@.take(text_end(data@) as int);
                        &&& id.product_name matches Some(name)
                        &&& name@ == lossy_text(own)
                        &&& valid_utf8(own) ==> name@ == decode_utf8(own)
                    },
                }
            },
    {
        let (index, sub) = self.request();
        if self.values.len() < 4 {
            match reply {
                None => IdentifyProgress::Failed(None),
                Some(data) => match decode_u32(data, index, sub) {
                    Ok(v) => {
                        self.values.push(v);
                        IdentifyProgress::More
                    },
                    Err(e) => IdentifyProgress::Failed(Some(e)),
                },
            }
        } else {
            IdentifyProgress::Done(
                MotorIdentity {
                    node_id: self.nid,
                    vendor_id: self.values[0],
                    product_code: self.values[1],
                    revision_number: self.values[2],
                    serial_number: self.values[3],
                    product_name: match reply {
                        Some(data) => Some(decode_string(data)),
                        None => None,
                    },
                },
            )
        }
    }
}

/// A motor falls silent once: after that it is offline, and looking again says
/// nothing until it is heard of.
pub proof fn silence_is_told_once(
    before: MotorState,
    now: Instant,
    later: Instant,
    uninit: Duration,
    init: Duration,
)
    requires
        before.falls_silent(now, uninit, init),
    ensures
        !(MotorState { online: false, ..before }).falls_silent(later, uninit, init),
{
}

/// A motor that has just been heard of, by heartbeat, is not offline at that
/// moment, however long it was silent before.
pub proof fn heartbeat_revives(
    before: MotorState,
    state: NmtState,
    now: Instant,
    uninit: Duration,
    init: Duration,
)
    ensures
        before.heard_heartbeat(state, now).online,
        before.heard_heartbeat(state, now).alive(now, uninit, init),
{
}

/// Only an initialized motor is sent back by a heartbeat, only if it is not
/// operational, and then it is ready no longer.
pub proof fn only_initialized_motors_need_reinit(before: MotorState, state: NmtState, now: Instant)
    ensures
        ({
            let after = before.heard_heartbeat(state, now);
            &&& after.lifecycle != before.lifecycle <==> before.lifecycle is Initialized && !(
            state is Operational)
            &&& after.lifecycle != before.lifecycle ==> after.lifecycle is NeedsReinit
            &&& after.lifecycle is Initialized ==> before.lifecycle is Initialized
                && state is Operational
        }),
{
}

/// Motors are looked after at least twice within the time that they may be
/// silent, unless that is under 40 ms.
pub proof fn tick_is_short_enough(uninit: Duration, init: Duration)
    ensures
        20_000_000 <= tick_of(uninit, init).nanos <= 200_000_000,
        init.nanos >= 40_000_000 && uninit.nanos >= 40_000_000 ==> 2 * tick_of(uninit, init).nanos
            <= init.nanos && 2 * tick_of(uninit, init).nanos <= uninit.nanos,
{
}

/// How long a motor may be silent, by its lifecycle. Before it is initialized,
/// and when it has to be again, the longer threshold holds; an initialized
/// motor falls silent exactly when it was online and was last heard of longer
/// ago than the threshold for initialized ones.
pub proof fn patience_goes_by_the_lifecycle(
    m: MotorState,
    now: Instant,
    uninit: Duration,
    init: Duration,
)
    ensures
        (m.lifecycle is Unknown || m.lifecycle is Identified || m.lifecycle is Initializing
            || m.lifecycle is NeedsReinit) ==> (m.falls_silent(now, uninit, init) <==> m.online && (
        m.last_heartbeat matches Some(t) ==> now.nanos > t.nanos + uninit.nanos) && (
        m.last_tpdo matches Some(t) ==> now.nanos > t.nanos + uninit.nanos)),
        m.lifecycle is Initialized ==> (m.falls_silent(now, uninit, init) <==> m.online && (
        m.last_heartbeat matches Some(t) ==> now.nanos > t.nanos + init.nanos) && (
        m.last_tpdo matches Some(t) ==> now.nanos > t.nanos + init.nanos)),
{
}

/// A motor that is not initialized and was heard of no longer ago than the
/// threshold for such motors does not fall silent, however short the other
/// threshold is.
pub proof fn uninitialized_motors_have_time(
    m: MotorState,
    heard: Instant,
    now: Instant,
    uninit: Duration,
    init: Duration,
)
    requires
        !(m.lifecycle is Initialized),
        m.last_heartbeat == Some(heard) || m.last_tpdo == Some(heard),
        now.nanos <= heard.nanos + uninit.nanos,
    ensures
        !m.falls_silent(now, uninit, init),
{
}

/// The threshold for motors that are not initialized: five halves of the
/// period of their heartbeat, rounded down to a nanosecond.
pub proof fn threshold_is_five_halves(period: Duration)
    requires
        period.nanos * 5 <= MAX_NANOS,
    ensures
        2 * two_and_a_half(period).nanos <= 5 * period.nanos < 2 * two_and_a_half(period).nanos + 2,
{
}

/// Motors are looked after at half the smaller threshold, rounded down to a
/// nanosecond, where that is between 20 ms and 200 ms, and at those limits
/// otherwise. The order of the two thresholds does not count.
pub proof fn tick_is_half_the_smaller_threshold(a: Duration, b: Duration)
    requires
        a.nanos <= b.nanos,
    ensures
        tick_of(a, b) == tick_of(b, a),
        40_000_000 <= a.nanos <= 400_000_000 ==> 2 * tick_of(a, b).nanos <= a.nanos < 2 * tick_of(
            a,
            b,
        ).nanos + 2,
        a.nanos < 40_000_000 ==> tick_of(a, b).nanos == 20_000_000,
        a.nanos > 400_000_000 ==> tick_of(a, b).nanos == 200_000_000,
{
}

/// A heartbeat changes what it tells of and nothing else: the time, the state,
/// that the motor is online, and the lifecycle of an initialized motor that is
/// operational no longer.
pub proof fn heartbeat_changes_only_what_it_tells(m: MotorState, state: NmtState, now: Instant)
    ensures
        ({
            let after = m.heard_heartbeat(state, now);
            &&& after.last_heartbeat == Some(now)
            &&& after.nmt_state == Some(state)
            &&& after.online
            &&& m.lifecycle is Initialized && state is Operational ==> after.lifecycle
                is Initialized
            &&& m.lifecycle is Initialized && !(state is Operational) ==> after.lifecycle == (
            MotorLifecycle::NeedsReinit { reason: ReinitReason::LeftOperational })
            &&& !(m.lifecycle is Initialized) ==> after.lifecycle == m.lifecycle
            &&& after.identity == m.identity
            &&& after.last_tpdo == m.last_tpdo
            &&& after.logic == m.logic
            &&& after.target_mode == m.target_mode
            &&& after.peak_torque_nm == m.peak_torque_nm
            &&& after.mit_kp_kd_factor == m.mit_kp_kd_factor
            &&& after.measurements == m.measurements
            &&& after.vel_filter == m.vel_filter
        }),
{
}

/// What is told of a heartbeat: that the motor is online if it was not before,
/// and then that it has to be initialized again if it was initialized and is
/// not operational. Nothing else is told, and nothing twice.
pub proof fn heartbeat_tells_the_changes(m: MotorState, nid: u8, state: NmtState)
    ensures
        ({
            let events = m.heartbeat_events(nid, state);
            let reinit = m.lifecycle is Initialized && !(state is Operational);
            let told = Cia402Event::NeedsReinit { nid, reason: ReinitReason::LeftOperational };
            &&& events.len() == (if m.online {
                0int
            } else {
                1
            }) + (if reinit {
                1int
            } else {
                0
            })
            &&& !m.online ==> events[0] == (Cia402Event::NodeOnline { nid })
            &&& reinit ==> events[events.len() - 1] == told
        }),
{
}

/// The identity that was read is taken over; a motor that was `Unknown` is
/// `Identified` by it, and no other motor goes anywhere. Nothing else changes.
pub proof fn identity_is_taken_over(m: MotorState, identity: MotorIdentity)
    ensures
        ({
            let after = m.identified(identity);
            &&& after.identity == Some(identity)
            &&& m.lifecycle is Unknown ==> after.lifecycle is Identified
            &&& !(m.lifecycle is Unknown) ==> after.lifecycle == m.lifecycle
            &&& after == (MotorState {
                identity: after.identity,
                lifecycle: after.lifecycle,
                ..m
            })
        }),
{
}

/// The identity is read from 0x1018, subindex 1 to 4 in this order, and then
/// the name from 0x1008.
pub proof fn identity_comes_from_its_objects(run: IdentifyRun)
    requires
        run.wf(),
    ensures
        run.wanted().0 == 0x1018 <==> run.read().len() < 4,
        run.read().len() < 4 ==> run.wanted().1 == run.read().len() + 1,
        run.read().len() == 4 ==> run.wanted() == (0x1008u16, 0u8),
{
}

/// The identifiers of heartbeats: 0x700 to 0x77F. Only the lower eleven bits
/// count.
pub proof fn range_of_heartbeats(cob_id: u16)
    ensures
        cob_id & HB_COB_MASK == HB_COB_BASE <==> 0x700 <= cob_id % 0x800 <= 0x77F,
{
    assert((cob_id & 0x780 == 0x700) <==> (0x700 <= cob_id % 0x800 && cob_id % 0x800 <= 0x77F))
        by (bit_vector);
}

} // verus!
