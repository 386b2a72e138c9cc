//! What is kept of one motor.

use vstd::prelude::*;

use super::events::Cia402Event;
use super::subscribe::{fan_out, fanned_out, Subscriber};
use super::types::{Connection, LiveState, Logic, Measurements, MotorInfo, MotorLifecycle};
use super::velocity::{Filter, VelocityEstimator};
use crate::canopen::nmt::NmtState;
use crate::number::Real32;
use crate::time::Instant;
use crate::types::{MotorIdentity, MotorMode};

verus! {

/// What is known of a motor.
#[derive(Debug)]
pub struct MotorEntryInner {
    pub identity: Option<MotorIdentity>,
    pub lifecycle: MotorLifecycle,
    /// Whether it was heard of a short while ago.
    pub online: bool,
    pub last_heartbeat: Option<Instant>,
    pub last_tpdo: Option<Instant>,
    pub nmt_state: Option<NmtState>,
    /// From the last status word.
    pub logic: Option<Logic>,
    /// The mode that was last asked for. The motor does not tell which mode it
    /// is in.
    pub target_mode: Option<MotorMode>,
    /// The peak torque in Nm, from 0x6076.
    pub peak_torque_nm: Option<Real32>,
    /// The gain factor, from 0x2003:07.
    pub mit_kp_kd_factor: Option<Real32>,
    pub measurements: Measurements,
    pub vel_filter: VelocityEstimator,
}

/// What is known of a motor, as a value.
#[verifier::ext_equal]
pub struct MotorState {
    pub identity: Option<MotorIdentity>,
    pub lifecycle: MotorLifecycle,
    pub online: bool,
    pub last_heartbeat: Option<Instant>,
    pub last_tpdo: Option<Instant>,
    pub nmt_state: Option<NmtState>,
    pub logic: Option<Logic>,
    pub target_mode: Option<MotorMode>,
    pub peak_torque_nm: Option<Real32>,
    pub mit_kp_kd_factor: Option<Real32>,
    pub measurements: Measurements,
    pub vel_filter: Filter,
}

impl View for MotorEntryInner {
    type V = MotorState;

    open spec fn view(&self) -> MotorState {
        MotorState {
            identity: self.identity,
            lifecycle: self.lifecycle,
            online: self.online,
            last_heartbeat: self.last_heartbeat,
            last_tpdo: self.last_tpdo,
            nmt_state: self.nmt_state,
            logic: self.logic,
            target_mode: self.target_mode,
            peak_torque_nm: self.peak_torque_nm,
            mit_kp_kd_factor: self.mit_kp_kd_factor,
            measurements: self.measurements,
            vel_filter: self.vel_filter@,
        }
    }
}

impl MotorState {
    /// A motor of which nothing is known.
    pub open spec fn fresh() -> MotorState {
        MotorState {
            identity: None,
            lifecycle: MotorLifecycle::Unknown,
            online: false,
            last_heartbeat: None,
            last_tpdo: None,
            nmt_state: None,
            logic: None,
            target_mode: None,
            peak_torque_nm: None,
            mit_kp_kd_factor: None,
            measurements: Measurements::none(),
            vel_filter: Filter::fresh(),
        }
    }

    /// When the motor was last heard of.
    pub open spec fn seen(self) -> Option<Instant> {
        match (self.last_heartbeat, self.last_tpdo) {
            (Some(a), Some(b)) => Some(
                if a.nanos >= b.nanos {
                    a
                } else {
                    b
                },
            ),
            (Some(a), None) => Some(a),
            (None, b) => b,
        }
    }

    /// A snapshot of the motor.
    pub open spec fn live(self, now: Instant) -> LiveState {
        LiveState {
            connection: Connection {
                last_heartbeat: self.last_heartbeat,
                last_tpdo: self.last_tpdo,
                online: self.online,
                nmt_state: self.nmt_state,
            },
            logic: self.logic,
            measurements: self.measurements,
            timestamp: now,
        }
    }

    /// What is shown of the motor.
    pub open spec fn info(self, node_id: u8) -> MotorInfo {
        MotorInfo {
            node_id,
            identity: self.identity,
            lifecycle: self.lifecycle,
            online: self.online,
            logic: self.logic,
            nmt_state: self.nmt_state,
            peak_torque_nm: self.peak_torque_nm,
        }
    }
}

impl MotorEntryInner {
    /// A motor of which nothing is known.
    pub fn new() -> (r: Self)
        ensures
            r@ == MotorState::fresh(),
    {
        let r = MotorEntryInner {
            identity: None,
            lifecycle: MotorLifecycle::Unknown,
            online: false,
            last_heartbeat: None,
            last_tpdo: None,
            nmt_state: None,
            logic: None,
            target_mode: None,
            peak_torque_nm: None,
            mit_kp_kd_factor: None,
            measurements: Measurements::default(),
            vel_filter: VelocityEstimator::default(),
        };
        assert(r@ =~= MotorState::fresh());
        r
    }

    /// When the motor was last heard of, by a heartbeat or by a PDO.
    pub fn last_seen(&self) -> (r: Option<Instant>)
        ensures
            r == self@.seen(),
    {
        match (self.last_heartbeat, self.last_tpdo) {
            (Some(a), Some(b)) => Some(
                if a.nanos >= b.nanos {
                    a
                } else {
                    b
                },
            ),
            (Some(a), None) => Some(a),
            (None, b) => b,
        }
    }

    /// A snapshot of the motor.
    pub fn build_live_state(&self, now: Instant) -> (r: LiveState)
        ensures
            r == self@.live(now),
    {
        LiveState {
            connection: Connection {
                last_heartbeat: self.last_heartbeat,
                last_tpdo: self.last_tpdo,
                online: self.online,
                nmt_state: self.nmt_state,
            },
            logic: self.logic,
            measurements: self.measurements,
            timestamp: now,
        }
    }

    /// What is shown of the motor.
    pub fn info(&self, node_id: u8) -> (r: MotorInfo)
        ensures
            r == self@.info(node_id),
    {
        MotorInfo {
            node_id,
            identity: match &self.identity {
                Some(identity) => Some(identity.clone()),
                None => None,
            },
            lifecycle: self.lifecycle,
            online: self.online,
            logic: self.logic,
            nmt_state: self.nmt_state,
            peak_torque_nm: self.peak_torque_nm,
        }
    }
}

/// What came of something that was heard, or not heard, of a motor.
#[derive(Debug)]
pub struct Change {
    pub nid: u8,
    /// To be told, in this order.
    pub events: Vec<Cia402Event>,
    /// To be published once the events have been told.
    pub live: LiveState,
    /// Whether the identity of the motor has to be read.
    pub identify: bool,
}

/// One motor: what is known of it, the last snapshot that was published, and
/// who is told of the next.
#[derive(Debug)]
pub struct MotorEntry {
    pub node_id: u8,
    pub inner: MotorEntryInner,
    pub snapshot: LiveState,
    pub subscribers: Vec<Subscriber>,
}

/// One motor, as a value.
#[verifier::ext_equal]
pub struct Entry {
    pub node_id: u8,
    pub inner: MotorState,
    pub snapshot: LiveState,
    pub subscribers: Seq<Subscriber>,
}

impl View for MotorEntry {
    type V = Entry;

    open spec fn view(&self) -> Entry {
        Entry {
            node_id: self.node_id,
            inner: self.inner@,
            snapshot: self.snapshot,
            subscribers: self.subscribers@,
        }
    }
}

impl Entry {
    /// A motor that has just been listed.
    pub open spec fn fresh(node_id: u8, now: Instant) -> Entry {
        Entry {
            node_id,
            inner: MotorState::fresh(),
            snapshot: LiveState::blank(now),
            subscribers: seq![],
        }
    }

    /// `new` is the motor after `state` was published.
    pub open spec fn published(self, state: LiveState, new: Entry) -> bool {
        &&& new.node_id == self.node_id
        &&& new.inner == self.inner
        &&& new.snapshot == state
        &&& fanned_out(self.subscribers, state, new.subscribers)
    }
}

impl MotorEntry {
    /// A motor that has just been listed.
    pub fn new(node_id: u8, now: Instant) -> (r: Self)
        ensures
            r@ == Entry::fresh(node_id, now),
    {
        let r = MotorEntry {
            node_id,
            inner: MotorEntryInner::new(),
            snapshot: LiveState::empty(now),
            subscribers: Vec::new(),
        };
        assert(r@ =~= Entry::fresh(node_id, now));
        r
    }

    /// Makes a snapshot the last one, and offers it to the subscribers. Those
    /// whose stream is gone are removed.
    pub fn publish(&mut self, state: LiveState)
        ensures
            old(self)@.published(state, final(self)@),
    {
        self.snapshot = state;
        fan_out(&mut self.subscribers, &state);
    }

    /// Adds a subscriber.
    pub fn add_subscriber(&mut self, sub: Subscriber)
        ensures
            final(self)@ == (Entry {
                subscribers: old(self)@.subscribers.push(sub),
                ..old(self)@
            }),
    {
        self.subscribers.push(sub);
    }
}

/// A motor was last heard of at the later of its last heartbeat and its last
/// PDO; at neither if there was none.
pub proof fn last_sign_of_life(m: MotorState)
    ensures
        m.seen() is None <==> m.last_heartbeat is None && m.last_tpdo is None,
        m.last_heartbeat matches Some(t) ==> m.seen() matches Some(s) && s.nanos >= t.nanos,
        m.last_tpdo matches Some(t) ==> m.seen() matches Some(s) && s.nanos >= t.nanos,
        m.seen() is Some ==> m.seen() == m.last_heartbeat || m.seen() == m.last_tpdo,
{
}

/// A snapshot shows what is known of the motor, at the time it was made.
pub proof fn snapshot_shows_the_motor(m: MotorState, now: Instant)
    ensures
        ({
            let s = m.live(now);
            &&& s.timestamp == now
            &&& s.connection.online == m.online
            &&& s.connection.last_heartbeat == m.last_heartbeat
            &&& s.connection.last_tpdo == m.last_tpdo
            &&& s.connection.nmt_state == m.nmt_state
            &&& s.logic == m.logic
            &&& s.measurements == m.measurements
        }),
{
}

/// The list shows what is known of the motor, under its node id.
pub proof fn list_shows_the_motor(m: MotorState, nid: u8)
    ensures
        m.info(nid).node_id == nid,
        m.info(nid).identity == m.identity,
        m.info(nid).lifecycle == m.lifecycle,
        m.info(nid).online == m.online,
        m.info(nid).logic == m.logic,
        m.info(nid).nmt_state == m.nmt_state,
        m.info(nid).peak_torque_nm == m.peak_torque_nm,
{
}

/// Of a motor that has just been listed nothing is known: it is `Unknown` and
/// offline, was never heard of, and nobody is told of it.
pub proof fn nothing_is_known_of_a_new_motor(nid: u8, now: Instant)
    ensures
        ({
            let e = Entry::fresh(nid, now);
            &&& e.node_id == nid
            &&& e.subscribers.len() == 0
            &&& e.inner.lifecycle is Unknown
            &&& !e.inner.online
            &&& e.inner.identity is None
            &&& e.inner.seen() is None
            &&& e.inner.nmt_state is None
            &&& e.inner.logic is None
            &&& e.inner.target_mode is None
            &&& e.inner.peak_torque_nm is None
            &&& e.inner.mit_kp_kd_factor is None
            &&& e.inner.vel_filter.samples.len() == 0
            &&& e.snapshot == e.inner.live(now)
        }),
{
}

/// To publish a snapshot makes it the last one, and changes nothing of what is
/// known of the motor.
pub proof fn publishing_replaces_the_snapshot(e: Entry, state: LiveState, after: Entry)
    requires
        e.published(state, after),
    ensures
        after.snapshot == state,
        after.inner == e.inner,
        after.node_id == e.node_id,
        fanned_out(e.subscribers, state, after.subscribers),
{
}

/// What is known of a motor is what its entry holds, field by field.
pub proof fn motor_is_known_as_it_is_kept(m: MotorEntryInner, e: MotorEntry)
    ensures
        m@.identity == m.identity,
        m@.lifecycle == m.lifecycle,
        m@.online == m.online,
        m@.last_heartbeat == m.last_heartbeat,
        m@.last_tpdo == m.last_tpdo,
        m@.nmt_state == m.nmt_state,
        m@.logic == m.logic,
        m@.target_mode == m.target_mode,
        m@.peak_torque_nm == m.peak_torque_nm,
        m@.mit_kp_kd_factor == m.mit_kp_kd_factor,
        m@.measurements == m.measurements,
        m@.vel_filter == m.vel_filter@,
        e@.node_id == e.node_id,
        e@.inner == e.inner@,
        e@.snapshot == e.snapshot,
        e@.subscribers == e.subscribers@,
{
}

} // verus!
