//! The manager of the motors on one bus.
//!
//! It keeps what is known of the motors and which of them are busy, and says
//! for each operation whether it can be done and what is to be done. An
//! operation that is begun claims its node; whoever carries it out gives the
//! node back with [`Cia402Manager::release`].

use vstd::prelude::*;

use super::codec::{
    bits_of_a_status_word, has_fault, operation_enabled, status_word_has_fault, tpdo1_of,
    Tpdo1Frame,
};
use super::discovery::{foreign_heartbeat, IdentifyRun};
use super::events::Cia402Event;
use super::inflight::{busy_text, InflightOps};
use super::initialize::{attempts, init_steps, InitializeRun, Poll};
use super::motor_entry::{Change, Entry, MotorEntry, MotorState};
use super::options::Cia402ManagerOptions;
use super::registry::{
    appearance, awaiting, found_or_fresh, keyed, listed, looked_after, online_only, silent,
    tells_offline, MotorRegistry,
};
use super::sequences::{
    build_change_node_id_writes, build_clear_error_writes, build_disable_writes,
    build_max_torque_writes, build_position_preset_writes, build_set_mode_writes,
    build_set_target_writes, change_node_id_writes, control_word, limited,
    position_preset_writes, set_mode_writes, target_accepted, target_refused_with, target_writes,
    ScaledTarget, SetTargetContext, CW_FAULT_RESET, CW_SHUTDOWN, OD_MAX_TORQUE,
};
use super::subscribe::{
    max_capacity, on_course, StatusStream, StatusStreamItem, StreamOptions, Subscriber,
};
use super::tpdo_listener::{sender_of, tpdo_sender, Filtered, TpdoKind};
use super::types::{LiveState, Logic, Measurements, MotorInfo, MotorLifecycle};
use super::velocity::{Filter, FilterStep, VelocityEstimator};
use crate::canopen::bytes::value16;
use crate::canopen::dictionary::write_u16;
use crate::canopen::frame::Frame;
use crate::canopen::nmt::{is_heartbeat, NmtState};
use crate::canopen::tpdo_config::{views, SdoWrite};
use crate::error::{Error, Result};
use crate::number::Real32;
use crate::text::{decimal, node_message, node_text};
use crate::time::{Duration, Instant};
use crate::types::{MotorErrorKind, MotorIdentity, MotorMode, MotorTarget};

verus! {

/// The pause between two looks at the mode of a motor, in milliseconds.
pub const MODE_POLL_MS: u64 = 10;

/// The position of a motor, as it can be read.
pub const OD_ACTUAL_POSITION: u16 = 0x6064;

/// The manager of the motors on one bus.
#[derive(Debug)]
pub struct Cia402Manager {
    opts: Cia402ManagerOptions,
    motors: MotorRegistry,
    inflight: InflightOps,
    /// Motors that were removed while an operation was at work on them.
    orphans: MotorRegistry,
}

/// The motors and which of them are busy; and the motors that were removed
/// while an operation was at work on them, with which it goes on.
#[verifier::ext_equal]
pub struct Fleet {
    pub motors: Map<u8, Entry>,
    pub busy: Set<u8>,
    pub orphans: Map<u8, Entry>,
}

impl View for Cia402Manager {
    type V = Fleet;

    closed spec fn view(&self) -> Fleet {
        Fleet { motors: self.motors@, busy: self.inflight@, orphans: self.orphans@ }
    }
}

impl Fleet {
    /// What is kept of each motor makes sense, and a removed motor is kept
    /// only as long as its node is busy.
    pub open spec fn sound(self) -> bool {
        &&& forall|nid: u8| #[trigger]
            self.motors.contains_key(nid) ==> self.motors[nid].inner.sound()
        &&& forall|nid: u8| #[trigger]
            self.orphans.contains_key(nid) ==> self.orphans[nid].inner.sound()
                && self.busy.contains(nid)
    }

    /// An operation on the node has a motor to work on.
    pub open spec fn holds(self, nid: u8) -> bool {
        self.orphans.contains_key(nid) || self.motors.contains_key(nid)
    }

    /// The motor that an operation on the node works on: the one that it began
    /// with, even if that was removed since.
    pub open spec fn held(self, nid: u8) -> Entry {
        if self.orphans.contains_key(nid) {
            self.orphans[nid]
        } else {
            self.motors[nid]
        }
    }

    /// The fleet with other knowledge of the motor that an operation on the
    /// node works on.
    pub open spec fn with_held(self, nid: u8, inner: MotorState) -> Fleet {
        if self.orphans.contains_key(nid) {
            Fleet {
                orphans: self.orphans.insert(nid, Entry { inner, ..self.orphans[nid] }),
                ..self
            }
        } else {
            self.with_inner(nid, inner)
        }
    }

    /// The motor is removed while an operation is at work on it.
    pub open spec fn is_orphaned(self, nid: u8) -> bool {
        &&& self.motors.contains_key(nid)
        &&& !self.motors[nid].inner.online
        &&& self.busy.contains(nid)
        &&& !self.orphans.contains_key(nid)
    }

    /// The fleet without the motors that are offline.
    pub open spec fn forgetful(self) -> Fleet {
        Fleet {
            motors: online_only(self.motors),
            orphans: Map::new(
                |nid: u8| self.orphans.contains_key(nid) || self.is_orphaned(nid),
                |nid: u8| self.held(nid),
            ),
            ..self
        }
    }

    /// The fleet with a node given back.
    pub open spec fn released(self, nid: u8) -> Fleet {
        Fleet { busy: self.busy.remove(nid), orphans: self.orphans.remove(nid), ..self }
    }

    /// The motor is listed and initialized.
    pub open spec fn initialized(self, nid: u8) -> bool {
        self.motors.contains_key(nid) && self.motors[nid].inner.lifecycle is Initialized
    }

    /// An operation that needs an initialized motor can begin.
    pub open spec fn can_control(self, nid: u8) -> bool {
        self.initialized(nid) && !self.busy.contains(nid)
    }

    /// The error of an operation that needs an initialized motor and cannot
    /// begin: the motor is not listed, or not initialized, or busy.
    pub open spec fn control_refused_with(self, nid: u8, op_name: Seq<char>, e: Error) -> bool {
        if !self.motors.contains_key(nid) {
            e matches Error::NotReady { nid: n, lifecycle } && n == nid && lifecycle@
                == "not in list"@
        } else if !(self.motors[nid].inner.lifecycle is Initialized) {
            e matches Error::NotReady { nid: n, lifecycle } && n == nid && lifecycle@
                == self.motors[nid].inner.lifecycle.text()
        } else {
            e.says(busy_text(nid, op_name))
        }
    }

    /// The fleet with a node claimed.
    pub open spec fn claimed(self, nid: u8) -> Fleet {
        Fleet { busy: self.busy.insert(nid), ..self }
    }

    /// The fleet with other knowledge of a motor.
    pub open spec fn with_inner(self, nid: u8, inner: MotorState) -> Fleet {
        Fleet {
            motors: self.motors.insert(nid, Entry { inner, ..self.motors[nid] }),
            ..self
        }
    }

    /// The initialization of a motor can begin.
    pub open spec fn can_initialize(self, nid: u8) -> bool {
        &&& self.motors.contains_key(nid)
        &&& !(self.motors[nid].inner.lifecycle is Unknown)
        &&& !(self.motors[nid].inner.lifecycle is Initializing)
        &&& !self.busy.contains(nid)
    }

    /// The error of an initialization that cannot begin: the motor is not
    /// listed, or not identified, or busy, or is being initialized.
    pub open spec fn initialize_refused_with(self, nid: u8, e: Error) -> bool {
        if !self.motors.contains_key(nid) {
            e.says(node_text(nid) + " not in list yet"@)
        } else if self.motors[nid].inner.lifecycle is Unknown {
            e matches Error::NotReady { nid: n, lifecycle } && n == nid && lifecycle@ == "Unknown"@
        } else if self.busy.contains(nid) {
            e.says(busy_text(nid, "initialize"@))
        } else {
            e.says(node_text(nid) + ": initialize already running"@)
        }
    }

    /// `new` and `change` are what comes of a heartbeat of a node.
    pub open spec fn took_heartbeat(
        self,
        nid: u8,
        state: NmtState,
        now: Instant,
        new: Fleet,
        change: Change,
    ) -> bool {
        let e = found_or_fresh(self.motors, nid, now);
        let after = Entry { inner: e.inner.heard_heartbeat(state, now), ..e };
        &&& new == (Fleet { motors: self.motors.insert(nid, after), ..self })
        &&& change.nid == nid
        &&& change.events@ == appearance(self.motors, nid) + e.inner.heartbeat_events(nid, state)
        &&& change.live == after.inner.live(now)
        &&& change.identify == (e.inner.lifecycle is Unknown)
    }

    /// The motor is being initialized.
    pub open spec fn initializing(self, nid: u8) -> bool {
        self.holds(nid) && self.held(nid).inner.lifecycle is Initializing
    }
}

impl MotorState {
    /// A motor that is more than `Unknown` has an identity; one that is online
    /// was heard of; a torque was measured only where the peak torque is known.
    pub open spec fn sound(self) -> bool {
        &&& !(self.lifecycle is Unknown) ==> self.identity is Some
        &&& self.online ==> self.seen() is Some
        &&& self.measurements.torque is Some ==> self.peak_torque_nm is Some
    }

    /// The motor as its initialization begins: what was learned or asked for
    /// before no longer counts.
    pub open spec fn begun(self) -> MotorState {
        MotorState {
            lifecycle: MotorLifecycle::Initializing,
            target_mode: None,
            logic: None,
            peak_torque_nm: None,
            mit_kp_kd_factor: None,
            measurements: Measurements::none(),
            vel_filter: Filter::fresh(),
            ..self
        }
    }

    /// Where a motor goes back to when its initialization fails.
    pub open spec fn rolled_back(self) -> MotorState {
        MotorState {
            lifecycle: if self.identity is Some {
                MotorLifecycle::Identified
            } else {
                MotorLifecycle::Unknown
            },
            ..self
        }
    }

    /// The fault that keeps a motor from changing its mode: the one that it
    /// reported last, or else one that only the last status word shows.
    pub open spec fn standing_fault(self) -> Option<MotorErrorKind> {
        match self.logic {
            Some(Logic::Error { kind, .. }) => Some(kind),
            _ => match self.measurements.status_word {
                Some(sw) => if has_fault(sw) {
                    Some(MotorErrorKind::Other)
                } else {
                    None
                },
                None => None,
            },
        }
    }

    /// What decides how a target is written.
    pub open spec fn target_context(self) -> SetTargetContext {
        SetTargetContext {
            current_mode: self.target_mode,
            peak_torque_nm: self.peak_torque_nm,
            mit_kp_kd_factor: self.mit_kp_kd_factor,
        }
    }
}

impl Cia402Manager {
    /// The options.
    pub closed spec fn opts(self) -> Cia402ManagerOptions {
        self.opts
    }

    /// The motors are kept in order, and what is kept of each makes sense.
    pub closed spec fn wf(self) -> bool {
        self.motors.wf() && self.orphans.wf() && self@.sound()
    }

    /// A manager that knows of no motor. Options that make no sense are
    /// refused.
    pub fn new(opts: Cia402ManagerOptions) -> (r: Result<Self>)
        ensures
            match opts.fault() {
                Some(text) => r matches Err(e) && e.says(text),
                None => r matches Ok(m) && m.wf() && m.opts() == opts && m@ == (Fleet {
                    motors: Map::empty(),
                    busy: Set::empty(),
                    orphans: Map::empty(),
                }),
            },
    {
        match opts.validate() {
            Ok(()) => Ok(
                Cia402Manager {
                    opts,
                    motors: MotorRegistry::new(),
                    inflight: InflightOps::new(),
                    orphans: MotorRegistry::new(),
                },
            ),
            Err(e) => Err(e),
        }
    }

    /// The options.
    pub fn options(&self) -> (r: &Cia402ManagerOptions)
        ensures
            *r == self.opts(),
    {
        &self.opts
    }

    /// Whatever was done with the manager: every motor is under its own node
    /// id, and what is kept of each makes sense.
    pub proof fn stays_sound(self)
        requires
            self.wf(),
        ensures
            keyed(self@.motors),
            keyed(self@.orphans),
            self@.sound(),
    {
        self.motors.is_keyed();
        self.orphans.is_keyed();
    }

    /// What is shown of the motors, by ascending node id.
    pub fn list(&self) -> (r: Vec<MotorInfo>)
        requires
            self.wf(),
        ensures
            r@ == listed(self@.motors, 256),
    {
        self.motors.list()
    }

    /// The motors that can be initialized, by ascending node id.
    pub fn initialize_targets(&self) -> (r: Vec<u8>)
        requires
            self.wf(),
        ensures
            r@ == awaiting(self@.motors, 256),
    {
        self.motors.initialize_targets()
    }

    /// Pairs each of the motors that were initialized with its own result, in
    /// the order of the motors.
    pub fn initialize_all_results<T>(targets: &Vec<u8>, results: Vec<T>) -> (r: Vec<(u8, T)>)
        requires
            targets@.len() == results@.len(),
        ensures
            r@.len() == targets@.len(),
            forall|i: int|
                0 <= i < r@.len() ==> #[trigger] r@[i] == (targets@[i], results@[i]),
    {
        let mut rest = results;
        let mut out: Vec<(u8, T)> = Vec::new();
        let mut i: usize = 0;
        while i < targets.len()
            invariant
                i <= targets@.len() == results@.len(),
                rest@ == results@.skip(i as int),
                out@.len() == i,
                forall|j: int| 0 <= j < i ==> #[trigger] out@[j] == (targets@[j], results@[j]),
            decreases targets@.len() - i,
        {
            let result = rest.remove(0);
            out.push((targets[i], result));
            assert(rest@ =~= results@.skip(i + 1));
            i = i + 1;
        }
        out
    }

    /// The last snapshot of a motor; an empty one if it is not listed.
    pub fn status(&self, nid: u8, now: Instant) -> (r: LiveState)
        requires
            self.wf(),
        ensures
            r == if self@.motors.contains_key(nid) {
                self@.motors[nid].snapshot
            } else {
                LiveState::blank(now)
            },
    {
        match self.motors.get(nid) {
            Some(e) => e.snapshot,
            None => LiveState::empty(now),
        }
    }

    /// Removes the motors that are offline. A motor that is heard of later
    /// appears again; an operation that is at work on a removed motor goes on
    /// with what it has, and does not touch the one that appears.
    pub fn forget_offline(&mut self)
        requires
            old(self).wf(),
        ensures
            final(self).wf(),
            final(self).opts() == old(self).opts(),
            final(self)@ == old(self)@.forgetful(),
    {
        let mut n: usize = 0;
        while n < 256
            invariant
                n <= 256,
                self.motors.wf(),
                self.orphans.wf(),
                self.opts == old(self).opts,
                self.inflight@ == old(self).inflight@,
                forall|nid: u8| #[trigger]
                    self.motors@.contains_key(nid) <==> old(self).motors@.contains_key(nid) && !(
                    nid < n && old(self)@.is_orphaned(nid)),
                forall|nid: u8| #[trigger]
                    self.motors@.contains_key(nid) ==> self.motors@[nid] == old(self).motors@[nid],
                forall|nid: u8| #[trigger]
                    self.orphans@.contains_key(nid) <==> old(self).orphans@.contains_key(nid) || (
                    nid < n && old(self)@.is_orphaned(nid)),
                forall|nid: u8| #[trigger]
                    self.orphans@.contains_key(nid) ==> self.orphans@[nid] == old(self)@.held(nid),
            decreases 256 - n,
        {
            let nid: u8 = n as u8;
            let ghost before = self.motors@;
            if self.inflight.is_busy(nid) && self.orphans.get(nid).is_none() {
                if let Some(e) = self.motors.take(nid) {
                    if e.inner.online {
                        self.motors.put(e);
                        assert(self.motors@ =~= before);
                    } else {
                        self.orphans.put(e);
                    }
                }
            }
            n = n + 1;
        }
        self.motors.forget_offline();
        assert(self.motors@ =~= online_only(old(self).motors@));
        assert(self.orphans@ =~= old(self)@.forgetful().orphans);
    }

    /// Gives a node back.
    pub fn release(&mut self, nid: u8)
        requires
            old(self).wf(),
        ensures
            final(self).wf(),
            final(self).opts() == old(self).opts(),
            final(self)@ == old(self)@.released(nid),
    {
        self.inflight.release(nid);
        let _ = self.orphans.take(nid);
    }

    /// Takes out the motor that an operation on the node works on, and tells
    /// whether it was removed since the operation began.
    fn take_held(&mut self, nid: u8) -> (r: Option<(MotorEntry, bool)>)
        requires
            old(self).wf(),
        ensures
            final(self).wf(),
            final(self).opts() == old(self).opts(),
            match r {
                Some((e, orphan)) => {
                    &&& old(self)@.holds(nid)
                    &&& e@ == old(self)@.held(nid)
                    &&& e.node_id == nid
                    &&& orphan == old(self)@.orphans.contains_key(nid)
                    &&& final(self)@ == if orphan {
                        Fleet { orphans: old(self)@.orphans.remove(nid), ..old(self)@ }
                    } else {
                        Fleet { motors: old(self)@.motors.remove(nid), ..old(self)@ }
                    }
                },
                None => !old(self)@.holds(nid) && final(self)@ == old(self)@,
            },
    {
        if let Some(e) = self.orphans.take(nid) {
            return Some((e, true));
        }
        assert(self.orphans@ =~= old(self).orphans@);
        match self.motors.take(nid) {
            Some(e) => Some((e, false)),
            None => {
                assert(self.motors@ =~= old(self).motors@);
                None
            },
        }
    }

    /// Puts the motor that an operation works on back to where it was.
    fn put_held(&mut self, e: MotorEntry, orphan: bool)
        requires
            old(self).wf(),
            e@.inner.sound(),
            orphan ==> old(self)@.busy.contains(e.node_id),
        ensures
            final(self).wf(),
            final(self).opts() == old(self).opts(),
            final(self)@ == if orphan {
                Fleet { orphans: old(self)@.orphans.insert(e.node_id, e@), ..old(self)@ }
            } else {
                Fleet { motors: old(self)@.motors.insert(e.node_id, e@), ..old(self)@ }
            },
    {
        if orphan {
            self.orphans.put(e);
        } else {
            self.motors.put(e);
        }
    }

    /// Takes a frame from the range of heartbeats. Our own heartbeat and
    /// frames that are no heartbeats change nothing.
    pub fn handle_heartbeat(&mut self, frame: &Frame, now: Instant) -> (r: Option<Change>)
        requires
            old(self).wf(),
        ensures
            final(self).wf(),
            final(self).opts() == old(self).opts(),
            match r {
                None => {
                    &&& final(self)@ == old(self)@
                    &&& forall|nid: u8, state: NmtState|
                        is_heartbeat(*frame, nid, state) ==> nid
                            == old(self).opts().heartbeat_node_id
                },
                Some(c) => {
                    &&& c.nid != old(self).opts().heartbeat_node_id
                    &&& exists|state: NmtState| #[trigger]
                        is_heartbeat(*frame, c.nid, state) && old(self)@.took_heartbeat(
                            c.nid,
                            state,
                            now,
                            final(self)@,
                            c,
                        )
                },
            },
    {
        match foreign_heartbeat(frame, self.opts.heartbeat_node_id) {
            None => None,
            Some((nid, state)) => Some(self.motors.handle_heartbeat(nid, state, now)),
        }
    }

    /// What a frame means for the velocity filter of the motor that sent it;
    /// `None` for a frame that does not reach a filter.
    pub fn filter_input(&self, kind: TpdoKind, frame: &Frame) -> (r: Option<
        (u8, Tpdo1Frame, FilterStep),
    >)
        requires
            self.wf(),
        ensures
            r == match sender_of(*frame) {
                Some(nid) => if self@.motors.contains_key(nid) && kind is Tpdo1 {
                    match tpdo1_of(frame.data@) {
                        Some(f) => Some(
                            (nid, f, self@.motors[nid].inner.vel_filter.step(f.timestamp_us)),
                        ),
                        None => None,
                    }
                } else {
                    None
                },
                None => None,
            },
    {
        match tpdo_sender(frame) {
            None => None,
            Some(nid) => match self.motors.get(nid) {
                None => None,
                Some(e) => match e.inner.filter_input(kind, frame.data()) {
                    Some((f, step)) => Some((nid, f, step)),
                    None => None,
                },
            },
        }
    }

    /// The velocity filter of a motor.
    pub fn filter(&self, nid: u8) -> (r: Option<&VelocityEstimator>)
        requires
            self.wf(),
        ensures
            match r {
                Some(f) => self@.motors.contains_key(nid) && f@ == self@.motors[nid].inner.vel_filter,
                None => !self@.motors.contains_key(nid),
            },
    {
        match self.motors.get(nid) {
            Some(e) => Some(&e.inner.vel_filter),
            None => None,
        }
    }

    /// Takes a frame from the range of the first or second PDO. A frame of a
    /// node that is not listed changes nothing.
    pub fn handle_frame(
        &mut self,
        kind: TpdoKind,
        frame: &Frame,
        now: Instant,
        filtered: Filtered,
    ) -> (r: Option<Change>)
        requires
            old(self).wf(),
        ensures
            final(self).wf(),
            final(self).opts() == old(self).opts(),
            r is Some <==> sender_of(*frame) is Some && old(self)@.motors.contains_key(
                sender_of(*frame)->0,
            ),
            match r {
                None => final(self)@ == old(self)@,
                Some(c) => {
                    let nid = sender_of(*frame)->0;
                    let before = old(self)@.motors[nid].inner;
                    let after = before.heard_tpdo(kind, frame.data@, now, filtered);
                    &&& final(self)@ == old(self)@.with_inner(nid, after)
                    &&& c.nid == nid
                    &&& c.events@ == before.tpdo_events(nid, after)
                    &&& c.live == after.live(now)
                    &&& !c.identify
                },
            },
    {
        match tpdo_sender(frame) {
            None => None,
            Some(nid) => self.motors.handle_tpdo(nid, kind, frame.data(), now, filtered),
        }
    }

    /// Looks after all motors: those that have been silent for too long are
    /// offline from now on.
    pub fn check_alive(&mut self, now: Instant, uninit: Duration, init: Duration) -> (r: Vec<
        Change,
    >)
        requires
            old(self).wf(),
        ensures
            final(self).wf(),
            final(self).opts() == old(self).opts(),
            final(self)@.busy == old(self)@.busy,
            final(self)@.orphans == old(self)@.orphans,
            final(self)@.motors.dom() == old(self)@.motors.dom(),
            forall|nid: u8| #[trigger]
                old(self)@.motors.contains_key(nid) ==> final(self)@.motors[nid] == looked_after(
                    old(self)@.motors[nid],
                    now,
                    uninit,
                    init,
                ),
            ({
                let gone = silent(old(self)@.motors, 256, now, uninit, init);
                &&& r@.len() == gone.len()
                &&& forall|i: int|
                    0 <= i < gone.len() ==> tells_offline(
                        #[trigger] r@[i],
                        gone[i],
                        looked_after(old(self)@.motors[gone[i]], now, uninit, init),
                        now,
                    )
            }),
    {
        self.motors.check_alive(now, uninit, init)
    }

    /// Publishes a snapshot of a motor.
    pub fn publish(&mut self, nid: u8, live: LiveState)
        requires
            old(self).wf(),
        ensures
            final(self).wf(),
            final(self).opts() == old(self).opts(),
            final(self)@.busy == old(self)@.busy,
            final(self)@.orphans == old(self)@.orphans,
            final(self)@.motors.dom() == old(self)@.motors.dom(),
            forall|n: u8|
                n != nid && #[trigger] old(self)@.motors.contains_key(n) ==> final(self)@.motors[n]
                    == old(self)@.motors[n],
            old(self)@.motors.contains_key(nid) ==> old(self)@.motors[nid].published(
                live,
                final(self)@.motors[nid],
            ),
    {
        self.motors.publish(nid, live);
    }

    /// Subscribes to the snapshots of a motor. The last one is delivered at
    /// once.
    pub fn subscribe_status(&mut self, nid: u8, opts: &StreamOptions) -> (r: Result<StatusStream>)
        requires
            old(self).wf(),
            opts.capacity <= max_capacity(),
        ensures
            final(self).wf(),
            final(self).opts() == old(self).opts(),
            match r {
                Err(e) => {
                    &&& final(self)@ == old(self)@
                    &&& if opts.capacity == 0 {
                        e.says("subscribe_status: capacity must be > 0"@)
                    } else {
                        !old(self)@.motors.contains_key(nid) && e == Error::UnknownNode(nid)
                    }
                },
                Ok(stream) => {
                    let before = old(self)@.motors[nid];
                    let after = final(self)@.motors[nid];
                    &&& opts.capacity > 0
                    &&& old(self)@.motors.contains_key(nid)
                    &&& after.subscribers.len() == before.subscribers.len() + 1
                    &&& after == (Entry {
                        subscribers: before.subscribers.push(after.subscribers.last()),
                        ..before
                    })
                    &&& after.subscribers.last().room() == opts.capacity
                    &&& {
                        // Taken, unless the stream is already gone.
                        ||| after.subscribers.last().taken() == seq![
                            StatusStreamItem::Sample(before.snapshot),
                        ]
                        ||| after.subscribers.last().taken().len() == 0
                            && after.subscribers.last().gone()
                    }
                    &&& stream.delivered().len() == 0
                    &&& stream.seen() == 0
                    &&& stream.course() == after.subscribers.last().course()
                    &&& on_course(
                        after.subscribers.last().taken(),
                        after.subscribers.last().course(),
                    )
                    &&& after.subscribers.last().pending() == 0
                    &&& after.subscribers.last().refused().len() == 0
                    &&& final(self)@ == (Fleet {
                        motors: old(self)@.motors.insert(nid, after),
                        ..old(self)@
                    })
                },
            },
    {
        if opts.capacity == 0 {
            return Err(Error::Internal("subscribe_status: capacity must be > 0".to_owned()));
        }
        let mut e = match self.motors.take(nid) {
            Some(e) => e,
            None => {
                assert(self.motors@ =~= old(self).motors@);
                return Err(Error::UnknownNode(nid));
            },
        };
        let (mut sub, stream) = Subscriber::new(opts);
        let _ = sub.push(&e.snapshot);
        e.add_subscriber(sub);
        let ghost after = e@;
        self.motors.put(e);
        proof {
            assert(self.motors@ =~= old(self).motors@.insert(nid, after));
            assert(after.subscribers.drop_last() =~= old(self)@.motors[nid].subscribers);
            assert(after.subscribers =~= old(self)@.motors[nid].subscribers.push(
                after.subscribers.last(),
            ));
        }
        Ok(stream)
    }

    // ===== identity =====

    /// Begins to read the identity of a node. It is listed from now on.
    pub fn identify(&mut self, nid: u8, now: Instant) -> (r: Result<IdentifyRun>)
        requires
            old(self).wf(),
        ensures
            final(self).wf(),
            final(self).opts() == old(self).opts(),
            match r {
                Ok(run) => {
                    &&& !old(self)@.busy.contains(nid)
                    &&& final(self)@ == (Fleet {
                        motors: old(self)@.motors.insert(
                            nid,
                            found_or_fresh(old(self)@.motors, nid, now),
                        ),
                        busy: old(self)@.busy.insert(nid),
                        ..old(self)@
                    })
                    &&& run.wf()
                    &&& run.node() == nid
                    &&& run.read().len() == 0
                },
                Err(e) => {
                    &&& old(self)@.busy.contains(nid)
                    &&& final(self)@ == old(self)@
                    &&& e.says(busy_text(nid, "identify"@))
                },
            },
    {
        match self.inflight.acquire(nid, "identify") {
            Ok(()) => {
                self.motors.ensure(nid, now);
                Ok(IdentifyRun::new(nid))
            },
            Err(e) => Err(e),
        }
    }

    /// Begins to read the identity of a node that has just been heard of,
    /// unless the node is busy.
    pub fn identify_if_idle(&mut self, nid: u8) -> (r: Option<IdentifyRun>)
        requires
            old(self).wf(),
        ensures
            final(self).wf(),
            final(self).opts() == old(self).opts(),
            final(self)@ == old(self)@.claimed(nid),
            match r {
                Some(run) => !old(self)@.busy.contains(nid) && run.wf() && run.node() == nid
                    && run.read().len() == 0,
                None => old(self)@.busy.contains(nid),
            },
    {
        if self.inflight.claim(nid) {
            Some(IdentifyRun::new(nid))
        } else {
            None
        }
    }

    /// Takes over the identity that was read, and returns what is told of it.
    pub fn identified(&mut self, nid: u8, identity: MotorIdentity) -> (r: Cia402Event)
        requires
            old(self).wf(),
        ensures
            final(self).wf(),
            final(self).opts() == old(self).opts(),
            final(self)@ == if old(self)@.holds(nid) {
                old(self)@.with_held(nid, old(self)@.held(nid).inner.identified(identity))
            } else {
                old(self)@
            },
            r == (Cia402Event::Identified { nid, identity }),
    {
        if let Some((mut e, orphan)) = self.take_held(nid) {
            e.inner.set_identity(identity.clone());
            self.put_held(e, orphan);
            assert(self@ =~= old(self)@.with_held(
                nid,
                old(self)@.held(nid).inner.identified(identity),
            ));
        }
        Cia402Event::Identified { nid, identity }
    }

    /// What is told of a node whose identity could not be read. It stays as it
    /// is, and its next heartbeat has the identity read again.
    pub fn identify_failed(&self, nid: u8, reason: String) -> (r: Cia402Event)
        ensures
            r == (Cia402Event::IdentifyFailed { nid, reason }),
    {
        Cia402Event::IdentifyFailed { nid, reason }
    }

    // ===== initialization =====

    /// Begins to initialize a motor. It has to be listed and identified.
    pub fn initialize(&mut self, nid: u8) -> (r: Result<InitializeRun>)
        requires
            old(self).wf(),
            old(self).opts().wf(),
        ensures
            final(self).wf(),
            final(self).opts() == old(self).opts(),
            match r {
                Ok(run) => {
                    &&& old(self)@.can_initialize(nid)
                    &&& final(self)@ == old(self)@.claimed(nid).with_inner(
                        nid,
                        old(self)@.motors[nid].inner.begun(),
                    )
                    &&& run.wf()
                    &&& run.node() == nid
                    &&& run.rounds() == attempts(old(self).opts())
                    &&& run.plan() == init_steps(nid, old(self).opts())
                    &&& run.position() == 0
                },
                Err(e) => {
                    &&& !old(self)@.can_initialize(nid)
                    &&& final(self)@ == old(self)@
                    &&& old(self)@.initialize_refused_with(nid, e)
                },
            },
    {
        let lifecycle = match self.motors.get(nid) {
            Some(e) => e.inner.lifecycle,
            None => {
                let mut text = node_message(nid);
                text.append(" not in list yet");
                return Err(Error::Internal(text));
            },
        };
        if let MotorLifecycle::Unknown = lifecycle {
            return Err(Error::NotReady { nid, lifecycle: lifecycle.name().to_owned() });
        }
        match self.inflight.acquire(nid, "initialize") {
            Ok(()) => {},
            Err(e) => {
                return Err(e);
            },
        }
        if let MotorLifecycle::Initializing = lifecycle {
            self.inflight.release(nid);
            assert(self.inflight@ =~= old(self).inflight@);
            let mut text = node_message(nid);
            text.append(": initialize already running");
            return Err(Error::Internal(text));
        }
        if let Some(mut e) = self.motors.take(nid) {
            e.inner.lifecycle = MotorLifecycle::Initializing;
            e.inner.target_mode = None;
            e.inner.logic = None;
            e.inner.peak_torque_nm = None;
            e.inner.mit_kp_kd_factor = None;
            e.inner.measurements = Measurements::default();
            e.inner.vel_filter = VelocityEstimator::default();
            self.motors.put(e);
        }
        assert(self.motors@ =~= old(self)@.with_inner(
            nid,
            old(self)@.motors[nid].inner.begun(),
        ).motors);
        Ok(InitializeRun::new(nid, &self.opts))
    }

    /// What is told of a motor whose initialization has begun.
    pub fn initialize_begun(&self, nid: u8) -> (r: Cia402Event)
        ensures
            r == (Cia402Event::Initializing { nid }),
    {
        Cia402Event::Initializing { nid }
    }

    /// Takes over the peak torque of a motor that is being initialized.
    pub fn keep_peak(&mut self, nid: u8, peak: Real32)
        requires
            old(self).wf(),
        ensures
            final(self).wf(),
            final(self).opts() == old(self).opts(),
            final(self)@ == if old(self)@.initializing(nid) {
                old(self)@.with_held(
                    nid,
                    MotorState { peak_torque_nm: Some(peak), ..old(self)@.held(nid).inner },
                )
            } else {
                old(self)@
            },
    {
        if let Some((mut e, orphan)) = self.take_held(nid) {
            if let MotorLifecycle::Initializing = e.inner.lifecycle {
                e.inner.peak_torque_nm = Some(peak);
            }
            self.put_held(e, orphan);
        }
        assert(self@ =~= if old(self)@.initializing(nid) {
            old(self)@.with_held(
                nid,
                MotorState { peak_torque_nm: Some(peak), ..old(self)@.held(nid).inner },
            )
        } else {
            old(self)@
        });
    }

    /// Takes over the gain factor of a motor that is being initialized.
    pub fn keep_factor(&mut self, nid: u8, factor: Real32)
        requires
            old(self).wf(),
        ensures
            final(self).wf(),
            final(self).opts() == old(self).opts(),
            final(self)@ == if old(self)@.initializing(nid) {
                old(self)@.with_held(
                    nid,
                    MotorState { mit_kp_kd_factor: Some(factor), ..old(self)@.held(nid).inner },
                )
            } else {
                old(self)@
            },
    {
        if let Some((mut e, orphan)) = self.take_held(nid) {
            if let MotorLifecycle::Initializing = e.inner.lifecycle {
                e.inner.mit_kp_kd_factor = Some(factor);
            }
            self.put_held(e, orphan);
        }
        assert(self@ =~= if old(self)@.initializing(nid) {
            old(self)@.with_held(
                nid,
                MotorState { mit_kp_kd_factor: Some(factor), ..old(self)@.held(nid).inner },
            )
        } else {
            old(self)@
        });
    }

    /// A motor that is being initialized is initialized now. Returns what is
    /// told of it.
    pub fn finish_initialize(&mut self, nid: u8) -> (r: Cia402Event)
        requires
            old(self).wf(),
        ensures
            final(self).wf(),
            final(self).opts() == old(self).opts(),
            final(self)@ == if old(self)@.initializing(nid) {
                old(self)@.with_held(
                    nid,
                    MotorState {
                        lifecycle: MotorLifecycle::Initialized,
                        ..old(self)@.held(nid).inner
                    },
                )
            } else {
                old(self)@
            },
            r == (Cia402Event::Initialized { nid }),
    {
        if let Some((mut e, orphan)) = self.take_held(nid) {
            if let MotorLifecycle::Initializing = e.inner.lifecycle {
                e.inner.lifecycle = MotorLifecycle::Initialized;
            }
            self.put_held(e, orphan);
        }
        assert(self@ =~= if old(self)@.initializing(nid) {
            old(self)@.with_held(
                nid,
                MotorState {
                    lifecycle: MotorLifecycle::Initialized,
                    ..old(self)@.held(nid).inner
                },
            )
        } else {
            old(self)@
        });
        Cia402Event::Initialized { nid }
    }

    /// The initialization of a motor has failed: it goes back to where it was
    /// before. What was already written to the motor stays.
    pub fn rollback_initialize(&mut self, nid: u8)
        requires
            old(self).wf(),
        ensures
            final(self).wf(),
            final(self).opts() == old(self).opts(),
            final(self)@ == if old(self)@.initializing(nid) {
                old(self)@.with_held(nid, old(self)@.held(nid).inner.rolled_back())
            } else {
                old(self)@
            },
    {
        if let Some((mut e, orphan)) = self.take_held(nid) {
            if let MotorLifecycle::Initializing = e.inner.lifecycle {
                e.inner.lifecycle = if e.inner.identity.is_some() {
                    MotorLifecycle::Identified
                } else {
                    MotorLifecycle::Unknown
                };
            }
            self.put_held(e, orphan);
        }
        assert(self@ =~= if old(self)@.initializing(nid) {
            old(self)@.with_held(nid, old(self)@.held(nid).inner.rolled_back())
        } else {
            old(self)@
        });
    }

    /// The motor that an operation on the node works on.
    fn get_held(&self, nid: u8) -> (r: Option<&MotorEntry>)
        requires
            self.wf(),
        ensures
            match r {
                Some(e) => self@.holds(nid) && e@ == self@.held(nid),
                None => !self@.holds(nid),
            },
    {
        match self.orphans.get(nid) {
            Some(e) => Some(e),
            None => self.motors.get(nid),
        }
    }

    /// The state that the motor under an operation reported last.
    pub fn nmt_state(&self, nid: u8) -> (r: Option<NmtState>)
        requires
            self.wf(),
        ensures
            r == if self@.holds(nid) {
                self@.held(nid).inner.nmt_state
            } else {
                None
            },
    {
        match self.get_held(nid) {
            Some(e) => e.inner.nmt_state,
            None => None,
        }
    }

    // ===== control =====

    fn require_initialized(&self, nid: u8) -> (r: Result<()>)
        requires
            self.wf(),
        ensures
            match r {
                Ok(()) => self@.initialized(nid),
                Err(e) => !self@.initialized(nid) && forall|op: Seq<char>|
                    #[trigger] self@.control_refused_with(nid, op, e),
            },
    {
        match self.motors.get(nid) {
            None => Err(Error::NotReady { nid, lifecycle: "not in list".to_owned() }),
            Some(e) => match e.inner.lifecycle {
                MotorLifecycle::Initialized => Ok(()),
                _ => Err(
                    Error::NotReady { nid, lifecycle: e.inner.lifecycle.name().to_owned() },
                ),
            },
        }
    }

    /// Claims an initialized motor for the named operation.
    fn begin_control(&mut self, nid: u8, op_name: &str) -> (r: Result<()>)
        requires
            old(self).wf(),
        ensures
            final(self).wf(),
            final(self).opts() == old(self).opts(),
            match r {
                Ok(()) => old(self)@.can_control(nid) && final(self)@ == old(self)@.claimed(nid),
                Err(e) => !old(self)@.can_control(nid) && final(self)@ == old(self)@
                    && old(self)@.control_refused_with(nid, op_name@, e),
            },
    {
        match self.require_initialized(nid) {
            Ok(()) => self.inflight.acquire(nid, op_name),
            Err(e) => {
                assert(self@.control_refused_with(nid, op_name@, e));
                Err(e)
            },
        }
    }

    /// Begins to switch a motor to another mode. A motor with a fault is left
    /// alone: a fault has to be cleared by whoever is in charge.
    pub fn set_mode(&mut self, nid: u8, mode: MotorMode) -> (r: Result<Vec<SdoWrite>>)
        requires
            old(self).wf(),
        ensures
            final(self).wf(),
            final(self).opts() == old(self).opts(),
            match r {
                Ok(w) => {
                    &&& old(self)@.can_control(nid)
                    &&& old(self)@.motors[nid].inner.standing_fault() is None
                    &&& !(old(self)@.motors[nid].inner.logic matches Some(Logic::Error { .. }))
                    &&& old(self)@.motors[nid].inner.measurements.status_word matches Some(sw)
                        ==> sw & 0x0008 == 0
                    &&& final(self)@ == old(self)@.claimed(nid).with_inner(
                        nid,
                        MotorState { target_mode: Some(mode), ..old(self)@.motors[nid].inner },
                    )
                    &&& views(w@) == set_mode_writes(mode, false)
                },
                Err(e) => {
                    &&& final(self)@ == old(self)@
                    &&& if old(self)@.can_control(nid) {
                        old(self)@.motors[nid].inner.standing_fault() matches Some(kind) && e
                            == Error::InErrorState(kind)
                    } else {
                        old(self)@.control_refused_with(nid, "set_mode"@, e)
                    }
                },
            },
    {
        proof {
            fault_stands(self@.motors[nid].inner);
        }
        match self.begin_control(nid, "set_mode") {
            Ok(()) => {},
            Err(e) => {
                return Err(e);
            },
        }
        if let Some(mut e) = self.motors.take(nid) {
            let fault = match e.inner.logic {
                Some(Logic::Error { kind, .. }) => Some(kind),
                _ => match e.inner.measurements.status_word {
                    Some(sw) => if status_word_has_fault(sw) {
                        Some(MotorErrorKind::Other)
                    } else {
                        None
                    },
                    None => None,
                },
            };
            if let Some(kind) = fault {
                self.motors.put(e);
                self.inflight.release(nid);
                assert(self.motors@ =~= old(self).motors@);
                assert(self.inflight@ =~= old(self).inflight@);
                return Err(Error::InErrorState(kind));
            }
            e.inner.target_mode = Some(mode);
            self.motors.put(e);
        }
        assert(self.motors@ =~= old(self)@.with_inner(
            nid,
            MotorState { target_mode: Some(mode), ..old(self)@.motors[nid].inner },
        ).motors);
        Ok(build_set_mode_writes(mode, None))
    }

    /// A look at the control state of a motor that was switched to a mode.
    pub fn poll_mode(&self, nid: u8, target: MotorMode, now: Instant, deadline: Instant) -> (r: Poll)
        requires
            self.wf(),
        ensures
            ({
                let logic = if self@.holds(nid) {
                    self@.held(nid).inner.logic
                } else {
                    None
                };
                if logic == Some(Logic::Enabled(target)) {
                    r is Reached
                } else if logic matches Some(Logic::Error { kind, .. }) {
                    r == Poll::GivenUp(Error::InErrorState(logic->0->kind))
                } else if now.nanos >= deadline.nanos {
                    r == Poll::GivenUp(Error::ModeConfirmTimeout)
                } else {
                    r == Poll::Wait(Duration::millis(MODE_POLL_MS as int))
                }
            }),
    {
        let logic = match self.get_held(nid) {
            Some(e) => e.inner.logic,
            None => None,
        };
        match logic {
            Some(Logic::Enabled(mode)) => {
                if mode == target {
                    return Poll::Reached;
                }
            },
            Some(Logic::Error { kind, .. }) => {
                return Poll::GivenUp(Error::InErrorState(kind));
            },
            _ => {},
        }
        if now.nanos >= deadline.nanos {
            return Poll::GivenUp(Error::ModeConfirmTimeout);
        }
        Poll::Wait(Duration::from_millis(MODE_POLL_MS))
    }

    /// Begins to disable a motor (short-circuit brake).
    pub fn disable(&mut self, nid: u8) -> (r: Result<Vec<SdoWrite>>)
        requires
            old(self).wf(),
        ensures
            final(self).wf(),
            final(self).opts() == old(self).opts(),
            match r {
                Ok(w) => {
                    &&& old(self)@.can_control(nid)
                    &&& final(self)@ == old(self)@.claimed(nid)
                    &&& views(w@) == seq![control_word(CW_SHUTDOWN)]
                },
                Err(e) => {
                    &&& !old(self)@.can_control(nid)
                    &&& final(self)@ == old(self)@
                    &&& old(self)@.control_refused_with(nid, "disable"@, e)
                },
            },
    {
        match self.begin_control(nid, "disable") {
            Ok(()) => Ok(build_disable_writes()),
            Err(e) => Err(e),
        }
    }

    /// Begins to clear the fault of a motor. The motor is not enabled by this.
    pub fn clear_error(&mut self, nid: u8) -> (r: Result<Vec<SdoWrite>>)
        requires
            old(self).wf(),
        ensures
            final(self).wf(),
            final(self).opts() == old(self).opts(),
            match r {
                Ok(w) => {
                    &&& old(self)@.can_control(nid)
                    &&& final(self)@ == old(self)@.claimed(nid)
                    &&& views(w@) == seq![control_word(CW_FAULT_RESET)]
                },
                Err(e) => {
                    &&& !old(self)@.can_control(nid)
                    &&& final(self)@ == old(self)@
                    &&& old(self)@.control_refused_with(nid, "clear_error"@, e)
                },
            },
    {
        match self.begin_control(nid, "clear_error") {
            Ok(()) => Ok(build_clear_error_writes()),
            Err(e) => Err(e),
        }
    }

    /// Begins to limit the torque of a motor in all modes.
    pub fn set_max_torque(&mut self, nid: u8, permille: u16) -> (r: Result<Vec<SdoWrite>>)
        requires
            old(self).wf(),
        ensures
            final(self).wf(),
            final(self).opts() == old(self).opts(),
            match r {
                Ok(w) => {
                    &&& old(self)@.can_control(nid)
                    &&& final(self)@ == old(self)@.claimed(nid)
                    &&& views(w@) == seq![
                        write_u16(OD_MAX_TORQUE, 0, limited(permille as int, 0, 1000) as u16),
                    ]
                },
                Err(e) => {
                    &&& !old(self)@.can_control(nid)
                    &&& final(self)@ == old(self)@
                    &&& old(self)@.control_refused_with(nid, "set_max_torque"@, e)
                },
            },
    {
        match self.begin_control(nid, "set_max_torque") {
            Ok(()) => Ok(build_max_torque_writes(permille)),
            Err(e) => Err(e),
        }
    }

    /// What decides how a target of a motor is written; of a motor that is not
    /// listed, nothing is known.
    pub fn target_context(&self, nid: u8) -> (r: SetTargetContext)
        requires
            self.wf(),
        ensures
            self@.motors.contains_key(nid) ==> r == self@.motors[nid].inner.target_context(),
            !self@.motors.contains_key(nid) ==> r == MotorState::fresh().target_context(),
    {
        match self.motors.get(nid) {
            Some(e) => SetTargetContext {
                current_mode: e.inner.target_mode,
                peak_torque_nm: e.inner.peak_torque_nm,
                mit_kp_kd_factor: e.inner.mit_kp_kd_factor,
            },
            None => SetTargetContext::default(),
        }
    }

    /// Begins to give a motor a target. `scaled` and `scale_text` are made
    /// from what [`Cia402Manager::target_context`] returns.
    pub fn set_target(
        &mut self,
        nid: u8,
        target: &MotorTarget,
        scaled: ScaledTarget,
        scale_text: &str,
    ) -> (r: Result<Vec<SdoWrite>>)
        requires
            old(self).wf(),
        ensures
            final(self).wf(),
            final(self).opts() == old(self).opts(),
            ({
                let ctx = old(self)@.motors[nid].inner.target_context();
                match r {
                    Ok(w) => {
                        &&& old(self)@.can_control(nid)
                        &&& target_accepted(*target, ctx)
                        &&& final(self)@ == old(self)@.claimed(nid)
                        &&& views(w@) == target_writes(*target, scaled)
                    },
                    Err(e) => {
                        &&& final(self)@ == old(self)@
                        &&& if old(self)@.can_control(nid) {
                            !target_accepted(*target, ctx) && target_refused_with(
                                *target,
                                ctx,
                                scale_text@,
                                e,
                            )
                        } else {
                            old(self)@.control_refused_with(nid, "set_target"@, e)
                        }
                    },
                }
            }),
    {
        match self.begin_control(nid, "set_target") {
            Ok(()) => {},
            Err(e) => {
                return Err(e);
            },
        }
        let ctx = self.target_context(nid);
        match build_set_target_writes(target, ctx, scaled, scale_text) {
            Ok(w) => Ok(w),
            Err(e) => {
                self.inflight.release(nid);
                assert(self.inflight@ =~= old(self).inflight@);
                Err(e)
            },
        }
    }

    // ===== configuration, with or without initialization =====

    /// Begins to give a motor another node id, in effect after its next
    /// power-up.
    pub fn change_node_id(&mut self, nid: u8, new_id: u8) -> (r: Result<Vec<SdoWrite>>)
        requires
            old(self).wf(),
        ensures
            final(self).wf(),
            final(self).opts() == old(self).opts(),
            match r {
                Ok(w) => {
                    &&& 1 <= new_id <= 127
                    &&& !old(self)@.busy.contains(nid)
                    &&& final(self)@ == old(self)@.claimed(nid)
                    &&& views(w@) == change_node_id_writes(new_id)
                },
                Err(e) => {
                    &&& final(self)@ == old(self)@
                    &&& if 1 <= new_id <= 127 {
                        old(self)@.busy.contains(nid) && e.says(
                            busy_text(nid, "change_node_id"@),
                        )
                    } else {
                        e.says("new node id must be 1..=127, got "@ + decimal(new_id as nat))
                    }
                },
            },
    {
        match build_change_node_id_writes(new_id) {
            Err(e) => Err(e),
            Ok(w) => match self.inflight.acquire(nid, "change_node_id") {
                Ok(()) => Ok(w),
                Err(e) => Err(e),
            },
        }
    }

    /// Begins to make the present position of a motor count as `pos`
    /// revolutions, limited to half a turn either way.
    pub fn set_position_preset(&mut self, nid: u8, pos: Real32) -> (r: Result<Vec<SdoWrite>>)
        requires
            old(self).wf(),
        ensures
            final(self).wf(),
            final(self).opts() == old(self).opts(),
            match r {
                Ok(w) => {
                    &&& !old(self)@.busy.contains(nid)
                    &&& final(self)@ == old(self)@.claimed(nid)
                    &&& views(w@) == position_preset_writes(pos)
                },
                Err(e) => {
                    &&& old(self)@.busy.contains(nid)
                    &&& final(self)@ == old(self)@
                    &&& e.says(busy_text(nid, "set_position_preset"@))
                },
            },
    {
        match self.inflight.acquire(nid, "set_position_preset") {
            Ok(()) => Ok(build_position_preset_writes(pos)),
            Err(e) => Err(e),
        }
    }

    /// Begins to read the position of a motor. Returns index and subindex of
    /// what to read.
    pub fn read_position(&mut self, nid: u8) -> (r: Result<(u16, u8)>)
        requires
            old(self).wf(),
        ensures
            final(self).wf(),
            final(self).opts() == old(self).opts(),
            match r {
                Ok(object) => {
                    &&& !old(self)@.busy.contains(nid)
                    &&& final(self)@ == old(self)@.claimed(nid)
                    &&& object == (OD_ACTUAL_POSITION, 0u8)
                },
                Err(e) => {
                    &&& old(self)@.busy.contains(nid)
                    &&& final(self)@ == old(self)@
                    &&& e.says(busy_text(nid, "read_position"@))
                },
            },
    {
        match self.inflight.acquire(nid, "read_position") {
            Ok(()) => Ok((OD_ACTUAL_POSITION, 0)),
            Err(e) => Err(e),
        }
    }
}

/// Nothing can begin on a node that is busy.
pub proof fn busy_node_refuses(fleet: Fleet, nid: u8)
    requires
        fleet.busy.contains(nid),
    ensures
        !fleet.can_control(nid),
        !fleet.can_initialize(nid),
{
}

/// A node that was claimed and given back can be claimed again by whatever
/// could claim it before, and no other node is affected.
pub proof fn release_undoes_claim(fleet: Fleet, nid: u8)
    requires
        fleet.sound(),
        !fleet.busy.contains(nid),
    ensures
        fleet.claimed(nid).released(nid) == fleet,
{
    assert(fleet.busy.insert(nid).remove(nid) =~= fleet.busy);
    assert(fleet.orphans.remove(nid) =~= fleet.orphans);
}

/// When an initialization has failed and its node is given back, it can be
/// tried again: the motor is `Identified`, whatever it was before.
pub proof fn failed_initialization_can_be_retried(fleet: Fleet, nid: u8)
    requires
        fleet.sound(),
        fleet.can_initialize(nid),
    ensures
        ({
            let begun = fleet.claimed(nid).with_inner(nid, fleet.motors[nid].inner.begun());
            let back = begun.with_held(nid, begun.held(nid).inner.rolled_back());
            let released = back.released(nid);
            &&& begun.initializing(nid)
            &&& back.motors[nid].inner.lifecycle is Identified
            &&& back.motors[nid].inner.identity == fleet.motors[nid].inner.identity
            &&& released.can_initialize(nid)
        }),
{
}

/// When an initialization has succeeded and its node is given back, the motor
/// can be controlled; no mode has been asked for and no state is known yet.
pub proof fn initialized_motor_can_be_controlled(fleet: Fleet, nid: u8)
    requires
        fleet.sound(),
        fleet.can_initialize(nid),
    ensures
        ({
            let begun = fleet.claimed(nid).with_inner(nid, fleet.motors[nid].inner.begun());
            let done = begun.with_held(
                nid,
                MotorState {
                    lifecycle: MotorLifecycle::Initialized,
                    ..begun.held(nid).inner
                },
            );
            let released = done.released(nid);
            &&& released.can_control(nid)
            &&& released.motors[nid].inner.standing_fault() is None
            &&& released.motors[nid].inner.target_mode is None
        }),
{
}

/// To begin, to end or to give up an initialization leaves every other motor as
/// it is: the others can be initialized or not, whatever becomes of the first.
pub proof fn initialization_leaves_others_alone(
    fleet: Fleet,
    nid: u8,
    other: u8,
    inner: MotorState,
)
    requires
        fleet.can_initialize(nid),
        other != nid,
    ensures
        ({
            let begun = fleet.claimed(nid).with_inner(nid, fleet.motors[nid].inner.begun());
            let ended = begun.with_held(nid, inner);
            let released = ended.released(nid);
            forall|f: Fleet| #![trigger f.can_initialize(other)]
                f == begun || f == ended || f == released ==> {
                    &&& f.motors.contains_key(other) == fleet.motors.contains_key(other)
                    &&& fleet.motors.contains_key(other) ==> f.motors[other]
                        == fleet.motors[other]
                    &&& f.can_initialize(other) == fleet.can_initialize(other)
                }
        }),
{
}

/// A motor that was removed while an operation was at work on it and then
/// appears again starts anew: what the operation learns does not reach it.
pub proof fn removed_motor_starts_anew(
    fleet: Fleet,
    nid: u8,
    state: NmtState,
    now: Instant,
    inner: MotorState,
)
    requires
        fleet.motors.contains_key(nid),
        !fleet.motors[nid].inner.online,
        fleet.busy.contains(nid),
    ensures
        ({
            let gone = fleet.forgetful();
            let e = found_or_fresh(gone.motors, nid, now);
            let back = Fleet {
                motors: gone.motors.insert(
                    nid,
                    Entry { inner: e.inner.heard_heartbeat(state, now), ..e },
                ),
                ..gone
            };
            let after = back.with_held(nid, inner);
            &&& !gone.motors.contains_key(nid)
            &&& back.motors[nid].inner.lifecycle is Unknown
            &&& back.motors[nid].inner.identity is None
            &&& after.motors == back.motors
            &&& after.released(nid).motors == back.motors
        }),
{
}

/// A motor that leaves the operational state can no longer be controlled, and
/// can be initialized again.
pub proof fn lost_motor_needs_initialization(fleet: Fleet, nid: u8, state: NmtState, now: Instant)
    requires
        fleet.can_control(nid),
        !(state is Operational),
    ensures
        ({
            let after = fleet.with_inner(nid, fleet.motors[nid].inner.heard_heartbeat(state, now));
            !after.can_control(nid) && after.can_initialize(nid)
        }),
{
}

/// The mode that was asked for is what an enabled motor is taken to be in.
pub proof fn enabled_motor_is_in_the_mode_asked_for(
    state: MotorState,
    mode: MotorMode,
    data: Seq<u8>,
    now: Instant,
    filtered: Filtered,
)
    requires
        state.target_mode == Some(mode),
        data.len() >= 10,
    ensures
        ({
            let sw = value16(data, 0);
            let after = state.heard_tpdo(TpdoKind::Tpdo2, data, now, filtered);
            &&& after.logic == Some(Logic::Enabled(mode)) <==> operation_enabled(sw) && !has_fault(sw)
            &&& after.in_error() <==> has_fault(sw)
        }),
{
}

/// Which fault stands, for every motor: if the control state is an error, of
/// whatever kind and code, that kind; if it is not, and the last status word
/// has bit 3, an unnamed fault; and otherwise none.
pub proof fn fault_stands(state: MotorState)
    ensures
        state.logic matches Some(Logic::Error { kind, .. }) ==> state.standing_fault() == Some(
            kind,
        ),
        !(state.logic matches Some(Logic::Error { .. })) && (
        state.measurements.status_word matches Some(sw) && sw & 0x0008 != 0)
            ==> state.standing_fault() == Some(MotorErrorKind::Other),
        state.standing_fault() is Some <==> (state.logic matches Some(Logic::Error { .. })) || (
        state.measurements.status_word matches Some(sw) && sw & 0x0008 != 0),
{
    if let Some(sw) = state.measurements.status_word {
        bits_of_a_status_word(sw);
    }
}

/// Which motors can be controlled: those that are listed, initialized and not
/// busy. Each of the others is refused for the first of these that it lacks.
pub proof fn controllable_motors(fleet: Fleet, nid: u8, op_name: Seq<char>, e: Error)
    ensures
        fleet.can_control(nid) <==> fleet.motors.contains_key(nid)
            && fleet.motors[nid].inner.lifecycle == MotorLifecycle::Initialized
            && !fleet.busy.contains(nid),
        fleet.control_refused_with(nid, op_name, e) && !fleet.motors.contains_key(nid) ==> (
        e matches Error::NotReady { nid: n, lifecycle } && n == nid && lifecycle@
            == "not in list"@),
        fleet.control_refused_with(nid, op_name, e) && fleet.motors.contains_key(nid)
            && fleet.motors[nid].inner.lifecycle != MotorLifecycle::Initialized ==> (
        e matches Error::NotReady { nid: n, lifecycle } && n == nid && lifecycle@
            == fleet.motors[nid].inner.lifecycle.text()),
        fleet.control_refused_with(nid, op_name, e) && fleet.motors.contains_key(nid)
            && fleet.motors[nid].inner.lifecycle == MotorLifecycle::Initialized ==> e.says(
            busy_text(nid, op_name),
        ),
{
}

/// Which motors can be initialized, for the first time or again: those that are
/// listed and not busy, and are identified, initialized or in need of it.
pub proof fn initializable_motors(fleet: Fleet, nid: u8, e: Error)
    ensures
        fleet.can_initialize(nid) <==> fleet.motors.contains_key(nid) && !fleet.busy.contains(nid)
            && {
            ||| fleet.motors[nid].inner.lifecycle is Identified
            ||| fleet.motors[nid].inner.lifecycle is Initialized
            ||| fleet.motors[nid].inner.lifecycle is NeedsReinit
        },
        fleet.initialize_refused_with(nid, e) && !fleet.motors.contains_key(nid) ==> e.says(
            node_text(nid) + " not in list yet"@,
        ),
        fleet.initialize_refused_with(nid, e) && fleet.motors.contains_key(nid)
            && fleet.motors[nid].inner.lifecycle is Unknown ==> (e matches Error::NotReady {
            nid: n,
            lifecycle,
        } && n == nid && lifecycle@ == "Unknown"@),
        fleet.initialize_refused_with(nid, e) && fleet.motors.contains_key(nid) && !(
        fleet.motors[nid].inner.lifecycle is Unknown) && fleet.busy.contains(nid) ==> e.says(
            busy_text(nid, "initialize"@),
        ),
        fleet.initialize_refused_with(nid, e) && fleet.motors.contains_key(nid) && !(
        fleet.motors[nid].inner.lifecycle is Unknown) && !fleet.busy.contains(nid) ==> e.says(
            node_text(nid) + ": initialize already running"@,
        ),
{
}

/// When an initialization begins, nothing of what the motor has reported or was
/// asked for is left; who it is and how it is reached stays.
pub proof fn initialization_starts_from_nothing(state: MotorState)
    ensures
        ({
            let begun = state.begun();
            &&& begun.lifecycle is Initializing
            &&& begun.target_mode is None
            &&& begun.logic is None
            &&& begun.peak_torque_nm is None
            &&& begun.mit_kp_kd_factor is None
            &&& begun.measurements.position_rev is None
            &&& begun.measurements.velocity_rev_per_s is None
            &&& begun.measurements.torque is None
            &&& begun.measurements.driver_temp_x10 is None
            &&& begun.measurements.motor_temp_x10 is None
            &&& begun.measurements.status_word is None
            &&& begun.measurements.mode_display is None
            &&& begun.measurements.error_register is None
            &&& begun.measurements.timestamp_us is None
            &&& begun.vel_filter == Filter::fresh()
            &&& begun.identity == state.identity
            &&& begun.online == state.online
            &&& begun.nmt_state == state.nmt_state
            &&& begun.last_heartbeat == state.last_heartbeat
            &&& begun.last_tpdo == state.last_tpdo
        }),
{
}

/// When an initialization has failed, the motor counts as identified if its
/// identity is known and as unknown if it is not; all else about it stays.
pub proof fn rollback_changes_only_the_lifecycle(state: MotorState)
    ensures
        ({
            let back = state.rolled_back();
            &&& back.lifecycle is Identified <==> state.identity is Some
            &&& back.lifecycle is Unknown <==> state.identity is None
            &&& back == (MotorState { lifecycle: back.lifecycle, ..state })
        }),
{
}

/// Targets go by the mode that was asked for and by the constants that the
/// motor has told.
pub proof fn targets_go_by_what_is_known(state: MotorState)
    ensures
        state.target_context().current_mode == state.target_mode,
        state.target_context().peak_torque_nm == state.peak_torque_nm,
        state.target_context().mit_kp_kd_factor == state.mit_kp_kd_factor,
{
}

/// An operation works on the motor that it began with. As long as that is
/// listed, it is the listed one; once it was removed, it is the removed one,
/// even if a motor appears under the same node id again. What the operation
/// learns reaches that motor and no other, and changes nothing but what is
/// known of it.
pub proof fn operation_keeps_its_motor(fleet: Fleet, nid: u8, inner: MotorState, other: u8)
    ensures
        fleet.holds(nid) <==> fleet.orphans.contains_key(nid) || fleet.motors.contains_key(nid),
        fleet.orphans.contains_key(nid) ==> fleet.held(nid) == fleet.orphans[nid],
        !fleet.orphans.contains_key(nid) ==> fleet.held(nid) == fleet.motors[nid],
        fleet.initializing(nid) <==> (fleet.orphans.contains_key(nid)
            && fleet.orphans[nid].inner.lifecycle is Initializing) || (!fleet.orphans.contains_key(
            nid,
        ) && fleet.motors.contains_key(nid) && fleet.motors[nid].inner.lifecycle is Initializing),
        ({
            let after = fleet.with_held(nid, inner);
            &&& after.busy == fleet.busy
            &&& fleet.orphans.contains_key(nid) ==> after.motors == fleet.motors
            &&& !fleet.orphans.contains_key(nid) ==> after.orphans == fleet.orphans
            &&& after.held(nid) == (Entry { inner, ..fleet.held(nid) })
            &&& other != nid ==> {
                &&& after.motors.contains_key(other) == fleet.motors.contains_key(other)
                &&& after.motors[other] == fleet.motors[other]
                &&& after.orphans.contains_key(other) == fleet.orphans.contains_key(other)
                &&& after.orphans[other] == fleet.orphans[other]
            }
        }),
{
}

/// Forgetting removes from the list exactly the motors that are offline. Those
/// of them whose node is busy are kept aside for the operation at work, unless
/// it already works on one that was removed before. No node becomes free or
/// busy, and no motor changes.
pub proof fn forgetting_keeps_operations_going(fleet: Fleet, nid: u8)
    ensures
        ({
            let after = fleet.forgetful();
            let listed_before = fleet.motors.contains_key(nid);
            let listed_after = after.motors.contains_key(nid);
            &&& after.busy == fleet.busy
            &&& listed_after <==> listed_before && fleet.motors[nid].inner.online
            &&& listed_after ==> after.motors[nid] == fleet.motors[nid]
            &&& after.orphans.contains_key(nid) <==> fleet.orphans.contains_key(nid) || (
            listed_before && !fleet.motors[nid].inner.online && fleet.busy.contains(nid))
            &&& fleet.orphans.contains_key(nid) ==> after.orphans[nid] == fleet.orphans[nid]
            &&& !fleet.orphans.contains_key(nid) && after.orphans.contains_key(nid)
                ==> after.orphans[nid] == fleet.motors[nid]
        }),
{
}

/// To claim a node makes it busy, and to give it back makes it free and drops
/// the removed motor that was kept for its operation; nothing else changes.
pub proof fn claim_and_release_touch_one_node(fleet: Fleet, nid: u8, other: u8)
    ensures
        ({
            let claimed = fleet.claimed(nid);
            let released = fleet.released(nid);
            &&& claimed.busy.contains(nid)
            &&& !released.busy.contains(nid)
            &&& !released.orphans.contains_key(nid)
            &&& claimed.motors == fleet.motors
            &&& claimed.orphans == fleet.orphans
            &&& released.motors == fleet.motors
            &&& other != nid ==> {
                &&& claimed.busy.contains(other) == fleet.busy.contains(other)
                &&& released.busy.contains(other) == fleet.busy.contains(other)
                &&& released.orphans.contains_key(other) == fleet.orphans.contains_key(other)
                &&& released.orphans[other] == fleet.orphans[other]
            }
        }),
{
}

/// To learn something of a motor changes what is known of that motor, not who
/// subscribed to it or what was last published of it, and no other motor.
pub proof fn knowledge_touches_one_motor(fleet: Fleet, nid: u8, inner: MotorState, other: u8)
    ensures
        ({
            let after = fleet.with_inner(nid, inner);
            &&& after.motors[nid].inner == inner
            &&& after.motors[nid].subscribers == fleet.motors[nid].subscribers
            &&& after.motors[nid].snapshot == fleet.motors[nid].snapshot
            &&& after.busy == fleet.busy
            &&& after.orphans == fleet.orphans
            &&& other != nid ==> after.motors.contains_key(other) == fleet.motors.contains_key(
                other,
            ) && after.motors[other] == fleet.motors[other]
        }),
{
}

/// What a heartbeat does to the fleet: the node is listed and online, was heard
/// of just now and has told its state. No other motor, no busy node and no
/// removed motor is touched. The identity of a motor is asked for as long as it
/// is unknown.
pub proof fn heartbeat_is_taken(
    fleet: Fleet,
    nid: u8,
    state: NmtState,
    now: Instant,
    new: Fleet,
    change: Change,
    other: u8,
)
    requires
        fleet.took_heartbeat(nid, state, now, new, change),
    ensures
        new.motors.contains_key(nid),
        new.motors[nid].inner.online,
        new.motors[nid].inner.last_heartbeat == Some(now),
        new.motors[nid].inner.nmt_state == Some(state),
        new.busy == fleet.busy,
        new.orphans == fleet.orphans,
        other != nid ==> new.motors.contains_key(other) == fleet.motors.contains_key(other)
            && new.motors[other] == fleet.motors[other],
        change.nid == nid,
        change.identify <==> !fleet.motors.contains_key(nid)
            || fleet.motors[nid].inner.lifecycle is Unknown,
        change.live.timestamp == now,
        change.live.connection.online,
        change.live.connection.nmt_state == Some(state),
        change.live.connection.last_heartbeat == Some(now),
        change.live.logic == new.motors[nid].inner.logic,
        change.live.measurements == new.motors[nid].inner.measurements,
{
}

/// A look for a mode is made every 10 ms, and the position is read from 0x6064.
pub proof fn mode_polls_and_position_object()
    ensures
        Duration::millis(MODE_POLL_MS as int).nanos == 10_000_000,
        OD_ACTUAL_POSITION == 0x6064,
{
}

/// What is kept of a motor makes sense, whatever was done with the manager: one
/// that has come further than `Unknown` has an identity, one that is online was
/// heard of, and a torque was measured only where the peak torque is known. A
/// removed motor is kept only for a busy node.
pub proof fn kept_motors_make_sense(fleet: Fleet, nid: u8)
    requires
        fleet.sound(),
    ensures
        fleet.holds(nid) ==> {
            let m = fleet.held(nid).inner;
            &&& m.identity is None ==> m.lifecycle is Unknown
            &&& m.online ==> m.last_heartbeat is Some || m.last_tpdo is Some
            &&& m.peak_torque_nm is None ==> m.measurements.torque is None
        },
        fleet.orphans.contains_key(nid) ==> fleet.busy.contains(nid),
{
}

} // verus!
