//! Frames of the first and second transmit PDO.
//!
//! Each frame shows that the motor is there. If it can be read, it brings new
//! measurements, and the second PDO also a new control state; a fault is
//! reported when it begins.

use vstd::prelude::*;

use super::codec::{
    decode_tpdo1, decode_tpdo2, kind_of, logic_of, reading_of_a_status_word, status_word_to_logic,
    tpdo1_of, tpdo2_of, Tpdo1Frame, Tpdo2Frame,
};
use super::events::Cia402Event;
use super::motor_entry::{Change, MotorEntryInner, MotorState};
use super::types::{Logic, Measurements, TorqueReading};
use super::velocity::{FilterStep, FilterSums};
use crate::canopen::frame::{Frame, FrameId};
use crate::number::Real32;
use crate::time::Instant;

verus! {

/// The bits of an identifier that tell the object.
pub const TPDO_FC_MASK: u16 = 0x780;

/// The identifiers of the first transmit PDO begin here.
pub const TPDO1_BASE: u16 = 0x180;

/// The identifiers of the second transmit PDO begin here.
pub const TPDO2_BASE: u16 = 0x280;

/// Which of the two PDOs a frame is.
#[derive(Debug, Clone, Copy, PartialEq, Eq, Structural)]
pub enum TpdoKind {
    Tpdo1,
    Tpdo2,
}

impl TpdoKind {
    /// The name of the PDO.
    pub open spec fn text(self) -> Seq<char> {
        match self {
            TpdoKind::Tpdo1 => "TPDO1"@,
            TpdoKind::Tpdo2 => "TPDO2"@,
        }
    }

    /// The name of the PDO, for logs.
    pub fn tag(self) -> (r: &'static str)
        ensures
            r@ == self.text(),
    {
        match self {
            TpdoKind::Tpdo1 => "TPDO1",
            TpdoKind::Tpdo2 => "TPDO2",
        }
    }
}

/// The node that a PDO comes from.
pub open spec fn sender_of(frame: Frame) -> Option<u8> {
    match frame.id {
        FrameId::Standard(cob_id) => if cob_id % 0x80 == 0 {
            None
        } else {
            Some((cob_id % 0x80) as u8)
        },
        FrameId::Extended(_) => None,
    }
}

/// The node that a PDO comes from; `None` for an identifier that no node has.
pub fn tpdo_sender(frame: &Frame) -> (r: Option<u8>)
    ensures
        r == sender_of(*frame),
{
    match frame.id() {
        FrameId::Standard(cob_id) => {
            let nid: u8 = (cob_id % 0x80) as u8;
            if nid == 0 {
                None
            } else {
                Some(nid)
            }
        },
        FrameId::Extended(_) => None,
    }
}

/// What is computed from a frame of the first PDO.
#[derive(Debug, Clone, Copy, PartialEq)]
pub struct Filtered {
    /// The torque in Nm. It is looked at only where the peak torque is known.
    pub torque_nm: Real32,
    /// The sums of the velocity filter, with the frame added.
    pub sums: FilterSums,
    /// The slope of the samples that are then in the window, if there is one.
    pub velocity: Option<Real32>,
}

impl MotorState {
    /// The motor after a frame of the first PDO. Without a new velocity the
    /// last one stays.
    pub open spec fn with_tpdo1(self, f: Tpdo1Frame, filtered: Filtered) -> MotorState {
        MotorState {
            measurements: Measurements {
                position_rev: Some(f.position_rev),
                timestamp_us: Some(f.timestamp_us),
                torque: match self.peak_torque_nm {
                    Some(peak_nm) => Some(
                        TorqueReading {
                            permille: f.torque_permille,
                            peak_nm,
                            nm: filtered.torque_nm,
                        },
                    ),
                    None => None,
                },
                velocity_rev_per_s: if self.vel_filter.step(f.timestamp_us) is Extend
                    && filtered.velocity is Some {
                    filtered.velocity
                } else {
                    self.measurements.velocity_rev_per_s
                },
                ..self.measurements
            },
            vel_filter: self.vel_filter.after(f.timestamp_us, f.position_rev, filtered.sums),
            ..self
        }
    }

    /// The motor after a frame of the second PDO.
    pub open spec fn with_tpdo2(self, f: Tpdo2Frame) -> MotorState {
        MotorState {
            measurements: Measurements {
                status_word: Some(f.status_word),
                driver_temp_x10: Some(f.driver_temp_x10),
                motor_temp_x10: Some(f.motor_temp_x10),
                ..self.measurements
            },
            logic: Some(logic_of(f.status_word, self.target_mode, f.error_code)),
            ..self
        }
    }

    /// The motor after a frame: it is online, whether or not the frame can be
    /// read.
    pub open spec fn heard_tpdo(
        self,
        kind: TpdoKind,
        data: Seq<u8>,
        now: Instant,
        filtered: Filtered,
    ) -> MotorState {
        let heard = MotorState { last_tpdo: Some(now), online: true, ..self };
        match kind {
            TpdoKind::Tpdo1 => match tpdo1_of(data) {
                Some(f) => heard.with_tpdo1(f, filtered),
                None => heard,
            },
            TpdoKind::Tpdo2 => match tpdo2_of(data) {
                Some(f) => heard.with_tpdo2(f),
                None => heard,
            },
        }
    }

    /// The motor is in error.
    pub open spec fn in_error(self) -> bool {
        self.logic matches Some(logic) && logic is Error
    }

    /// What is told of the step from `self` to `new`: that the motor is back,
    /// and that a fault has begun.
    pub open spec fn tpdo_events(self, nid: u8, new: MotorState) -> Seq<Cia402Event> {
        (if self.online {
            seq![]
        } else {
            seq![Cia402Event::NodeOnline { nid }]
        }) + (if !self.in_error() && new.in_error() {
            match new.logic {
                Some(Logic::Error { kind, raw_code }) => seq![
                    Cia402Event::EnteredError { nid, kind, raw: raw_code },
                ],
                _ => seq![],
            }
        } else {
            seq![]
        })
    }
}

/// Takes over the readings of a second PDO.
pub fn apply_tpdo2(m: &mut Measurements, f: Tpdo2Frame)
    ensures
        *final(m) == (Measurements {
            status_word: Some(f.status_word),
            driver_temp_x10: Some(f.driver_temp_x10),
            motor_temp_x10: Some(f.motor_temp_x10),
            ..*old(m)
        }),
{
    m.status_word = Some(f.status_word);
    m.driver_temp_x10 = Some(f.driver_temp_x10);
    m.motor_temp_x10 = Some(f.motor_temp_x10);
}

fn apply_tpdo1(inner: &mut MotorEntryInner, f: Tpdo1Frame, filtered: Filtered)
    ensures
        final(inner)@ == old(inner)@.with_tpdo1(f, filtered),
{
    let extended = inner.vel_filter.update(f.timestamp_us, f.position_rev, filtered.sums);
    let torque = match inner.peak_torque_nm {
        Some(peak_nm) => Some(
            TorqueReading { permille: f.torque_permille, peak_nm, nm: filtered.torque_nm },
        ),
        None => None,
    };
    inner.measurements.position_rev = Some(f.position_rev);
    inner.measurements.timestamp_us = Some(f.timestamp_us);
    inner.measurements.torque = torque;
    if extended {
        if let Some(velocity) = filtered.velocity {
            inner.measurements.velocity_rev_per_s = Some(velocity);
        }
    }
}

impl MotorEntryInner {
    fn in_error(&self) -> (r: bool)
        ensures
            r == self@.in_error(),
    {
        match self.logic {
            Some(Logic::Error { .. }) => true,
            _ => false,
        }
    }

    /// Takes a frame of the motor.
    pub fn handle_tpdo(
        &mut self,
        nid: u8,
        kind: TpdoKind,
        data: &[u8],
        now: Instant,
        filtered: Filtered,
    ) -> (r: Change)
        ensures
            final(self)@ == old(self)@.heard_tpdo(kind, data@, now, filtered),
            r.nid == nid,
            r.events@ == old(self)@.tpdo_events(nid, final(self)@),
            r.live == final(self)@.live(now),
            !r.identify,
    {
        let was_online = self.online;
        let was_error = self.in_error();
        let mut events: Vec<Cia402Event> = Vec::new();
        self.last_tpdo = Some(now);
        self.online = true;
        match kind {
            TpdoKind::Tpdo1 => {
                if let Some(f) = decode_tpdo1(data) {
                    apply_tpdo1(self, f, filtered);
                }
            },
            TpdoKind::Tpdo2 => {
                if let Some(f) = decode_tpdo2(data) {
                    apply_tpdo2(&mut self.measurements, f);
                    self.logic = Some(
                        status_word_to_logic(f.status_word, self.target_mode, f.error_code),
                    );
                }
            },
        }
        if !was_online {
            events.push(Cia402Event::NodeOnline { nid });
        }
        if !was_error {
            if let Some(Logic::Error { kind, raw_code }) = self.logic {
                events.push(Cia402Event::EnteredError { nid, kind, raw: raw_code });
            }
        }
        assert(events@ =~= old(self)@.tpdo_events(nid, self@));
        Change { nid, events, live: self.build_live_state(now), identify: false }
    }

    /// What a frame of the first PDO means for the velocity filter: its time
    /// and position, and whether it extends the filter. `None` for a frame
    /// that does not reach the filter.
    pub fn filter_input(&self, kind: TpdoKind, data: &[u8]) -> (r: Option<
        (Tpdo1Frame, FilterStep),
    >)
        ensures
            r == match kind {
                TpdoKind::Tpdo1 => match tpdo1_of(data@) {
                    Some(f) => Some((f, self@.vel_filter.step(f.timestamp_us))),
                    None => None,
                },
                TpdoKind::Tpdo2 => None,
            },
    {
        match kind {
            TpdoKind::Tpdo1 => match decode_tpdo1(data) {
                Some(f) => Some((f, self.vel_filter.step(f.timestamp_us))),
                None => None,
            },
            TpdoKind::Tpdo2 => None,
        }
    }
}

/// A fault is told once: the frame that begins it tells it, and no later frame
/// does as long as it lasts.
pub proof fn fault_is_told_when_it_begins(
    before: MotorState,
    nid: u8,
    kind: TpdoKind,
    data: Seq<u8>,
    now: Instant,
    filtered: Filtered,
)
    ensures
        ({
            let after = before.heard_tpdo(kind, data, now, filtered);
            let events = before.tpdo_events(nid, after);
            (exists|i: int| 0 <= i < events.len() && #[trigger] events[i] is EnteredError) <==> (
            !before.in_error() && after.in_error())
        }),
{
    let after = before.heard_tpdo(kind, data, now, filtered);
    let events = before.tpdo_events(nid, after);
    if !before.in_error() && after.in_error() {
        assert(events[events.len() - 1] is EnteredError);
    }
}

/// A frame makes the motor online, and that is told exactly when it was not.
pub proof fn frame_brings_the_motor_online(
    before: MotorState,
    nid: u8,
    kind: TpdoKind,
    data: Seq<u8>,
    now: Instant,
    filtered: Filtered,
)
    ensures
        ({
            let after = before.heard_tpdo(kind, data, now, filtered);
            let events = before.tpdo_events(nid, after);
            &&& after.online
            &&& after.last_tpdo == Some(now)
            &&& after.lifecycle == before.lifecycle
            &&& after.identity == before.identity
            &&& (exists|i: int|
                0 <= i < events.len() && #[trigger] events[i] == (Cia402Event::NodeOnline { nid }))
                <==> !before.online
        }),
{
    let after = before.heard_tpdo(kind, data, now, filtered);
    let events = before.tpdo_events(nid, after);
    if !before.online {
        assert(events[0] == (Cia402Event::NodeOnline { nid }));
    }
}

/// The node that a PDO comes from is in the lower seven bits of a standard
/// identifier; 0 is no node, and extended identifiers have none.
pub proof fn sender_is_in_the_identifier(frame: Frame)
    ensures
        match frame.id {
            FrameId::Standard(cob_id) => match sender_of(frame) {
                Some(nid) => 0 < nid < 0x80 && (cob_id - nid) % 0x80 == 0,
                None => cob_id % 0x80 == 0,
            },
            FrameId::Extended(_) => sender_of(frame) is None,
        },
{
}

/// What a frame of the first PDO brings: position, time and torque of the
/// frame, the torque only where the peak torque is known; the velocity that was
/// computed, if the frame extends the filter and there is one, and the last
/// velocity otherwise. The control state and the readings of the second PDO
/// stay.
pub proof fn first_pdo_brings_its_readings(
    m: MotorState,
    data: Seq<u8>,
    now: Instant,
    filtered: Filtered,
)
    requires
        data.len() >= 12,
    ensures
        ({
            let after = m.heard_tpdo(TpdoKind::Tpdo1, data, now, filtered);
            let got = after.measurements;
            let had = m.measurements;
            let f = tpdo1_of(data)->0;
            &&& got.position_rev == Some(f.position_rev)
            &&& got.timestamp_us == Some(f.timestamp_us)
            &&& got.torque is Some <==> m.peak_torque_nm is Some
            &&& got.torque matches Some(t) ==> {
                &&& t.permille == f.torque_permille
                &&& Some(t.peak_nm) == m.peak_torque_nm
                &&& t.nm == filtered.torque_nm
            }
            &&& m.vel_filter.step(f.timestamp_us) is Extend && filtered.velocity is Some
                ==> got.velocity_rev_per_s == filtered.velocity
            &&& !(m.vel_filter.step(f.timestamp_us) is Extend && filtered.velocity is Some)
                ==> got.velocity_rev_per_s == had.velocity_rev_per_s
            &&& after.vel_filter == m.vel_filter.after(
                f.timestamp_us,
                f.position_rev,
                filtered.sums,
            )
            &&& got.status_word == had.status_word
            &&& got.driver_temp_x10 == had.driver_temp_x10
            &&& got.motor_temp_x10 == had.motor_temp_x10
            &&& got.mode_display == had.mode_display
            &&& got.error_register == had.error_register
            &&& after.logic == m.logic
        }),
{
}

/// What a frame of the second PDO brings: the status word and the two
/// temperatures, each from its own place, and the control state that follows
/// from the status word, the fault code and the mode that was asked for. The
/// readings of the first PDO and the filter stay.
pub proof fn second_pdo_brings_its_readings(
    m: MotorState,
    data: Seq<u8>,
    now: Instant,
    filtered: Filtered,
)
    requires
        data.len() >= 10,
    ensures
        ({
            let after = m.heard_tpdo(TpdoKind::Tpdo2, data, now, filtered);
            let got = after.measurements;
            let had = m.measurements;
            let f = tpdo2_of(data)->0;
            &&& got.status_word == Some(f.status_word)
            &&& got.driver_temp_x10 == Some(f.driver_temp_x10)
            &&& got.motor_temp_x10 == Some(f.motor_temp_x10)
            &&& f.status_word & 0x0008 != 0 ==> after.logic == Some(
                Logic::Error { kind: kind_of(f.error_code), raw_code: f.error_code },
            )
            &&& f.status_word & 0x000F == 0x0007 && m.target_mode is Some ==> after.logic == Some(
                Logic::Enabled(m.target_mode->0),
            )
            &&& f.status_word & 0x0008 == 0 && (f.status_word & 0x0007 != 0x0007
                || m.target_mode is None) ==> after.logic == Some(Logic::Disabled)
            &&& got.position_rev == had.position_rev
            &&& got.velocity_rev_per_s == had.velocity_rev_per_s
            &&& got.torque == had.torque
            &&& got.timestamp_us == had.timestamp_us
            &&& got.mode_display == had.mode_display
            &&& got.error_register == had.error_register
            &&& after.vel_filter == m.vel_filter
        }),
{
    let sw = tpdo2_of(data)->0.status_word;
    reading_of_a_status_word(sw, m.target_mode, tpdo2_of(data)->0.error_code);
    assert((sw & 0x000F == 0x0007) <==> (sw & 0x0008 == 0 && sw & 0x0007 == 0x0007)) by (bit_vector);
}

/// Every frame of a motor that is listed shows that it is there, and nothing
/// but its readings changes otherwise; one that is too short brings no
/// readings.
pub proof fn frame_shows_that_the_motor_is_there(
    m: MotorState,
    kind: TpdoKind,
    data: Seq<u8>,
    now: Instant,
    filtered: Filtered,
)
    ensures
        ({
            let after = m.heard_tpdo(kind, data, now, filtered);
            let short = if kind is Tpdo1 {
                data.len() < 12
            } else {
                data.len() < 10
            };
            &&& after.online
            &&& after.last_tpdo == Some(now)
            &&& after.last_heartbeat == m.last_heartbeat
            &&& after.nmt_state == m.nmt_state
            &&& after.identity == m.identity
            &&& after.lifecycle == m.lifecycle
            &&& after.target_mode == m.target_mode
            &&& after.peak_torque_nm == m.peak_torque_nm
            &&& after.mit_kp_kd_factor == m.mit_kp_kd_factor
            &&& short ==> after == (MotorState { last_tpdo: Some(now), online: true, ..m })
        }),
{
}

/// What is told of a frame: that the motor is online if it was not, then the
/// fault with its kind and code if it has begun; nothing else.
pub proof fn frame_tells_the_changes(m: MotorState, nid: u8, new: MotorState)
    ensures
        ({
            let events = m.tpdo_events(nid, new);
            let began = !(m.logic matches Some(Logic::Error { .. })) && (
            new.logic matches Some(Logic::Error { .. }));
            &&& events.len() == (if m.online {
                0int
            } else {
                1
            }) + (if began {
                1int
            } else {
                0
            })
            &&& !m.online ==> events[0] == (Cia402Event::NodeOnline { nid })
            &&& began ==> (new.logic matches Some(Logic::Error { kind, raw_code })
                && events[events.len() - 1] == (Cia402Event::EnteredError { nid, kind, raw: raw_code }))
        }),
{
}

/// The names of the two PDOs.
pub proof fn names_of_pdos(k: TpdoKind)
    ensures
        k is Tpdo1 ==> k.text() == "TPDO1"@,
        k is Tpdo2 ==> k.text() == "TPDO2"@,
{
}

/// The identifiers of the two PDOs: 0x180 to 0x1FF for the first, 0x280 to
/// 0x2FF for the second. Only the lower eleven bits count.
pub proof fn ranges_of_pdos(cob_id: u16)
    ensures
        cob_id & TPDO_FC_MASK == TPDO1_BASE <==> 0x180 <= cob_id % 0x800 <= 0x1FF,
        cob_id & TPDO_FC_MASK == TPDO2_BASE <==> 0x280 <= cob_id % 0x800 <= 0x2FF,
{
    assert((cob_id & 0x780 == 0x180) <==> (0x180 <= cob_id % 0x800 && cob_id % 0x800 <= 0x1FF))
        by (bit_vector);
    assert((cob_id & 0x780 == 0x280) <==> (0x280 <= cob_id % 0x800 && cob_id % 0x800 <= 0x2FF))
        by (bit_vector);
}

} // verus!
