//! The data model of a CiA402 motor: lifecycle, control state, connection and
//! measurements.

use vstd::prelude::*;
use vstd::std_specs::cmp::PartialEqSpec;

use super::known_devices::{friendly_text, human_friendly_name};
use crate::canopen::nmt::NmtState;
use crate::number::Real32;
use crate::text::{hex, number_in, numbers_are_read_back, push_hex};
use crate::time::Instant;
use crate::types::{MotorErrorKind, MotorIdentity, MotorMode};

verus! {

/// Why a motor has to be initialized again.
#[derive(Debug, Clone, Copy, PartialEq, Eq, Structural)]
pub enum ReinitReason {
    /// Its heartbeat says that it is no longer operational.
    LeftOperational,
}

/// How far a node has come.
#[derive(Debug, Clone, Copy, PartialEq, Eq, Structural)]
pub enum MotorLifecycle {
    /// A heartbeat was seen, the identity has not been read.
    Unknown,
    /// The identity is known, nothing is configured.
    Identified,
    /// Initialization is running.
    Initializing,
    /// Configured and operational: the motor can be controlled.
    Initialized,
    /// It was initialized, and has to be initialized again.
    NeedsReinit { reason: ReinitReason },
}

impl MotorLifecycle {
    /// The name of the state.
    pub open spec fn text(self) -> Seq<char> {
        match self {
            MotorLifecycle::Unknown => "Unknown"@,
            MotorLifecycle::Identified => "Identified"@,
            MotorLifecycle::Initializing => "Initializing"@,
            MotorLifecycle::Initialized => "Initialized"@,
            MotorLifecycle::NeedsReinit { reason: ReinitReason::LeftOperational } =>
                "NeedsReinit { reason: LeftOperational }"@,
        }
    }

    /// Whether the motor can be controlled: only when `Initialized`.
    pub fn is_ready(&self) -> (r: bool)
        ensures
            r == (*self is Initialized),
    {
        matches!(self, MotorLifecycle::Initialized)
    }

    /// The name of the state, for error messages.
    pub fn name(&self) -> (r: &'static str)
        ensures
            r@ == self.text(),
    {
        match self {
            MotorLifecycle::Unknown => "Unknown",
            MotorLifecycle::Identified => "Identified",
            MotorLifecycle::Initializing => "Initializing",
            MotorLifecycle::Initialized => "Initialized",
            MotorLifecycle::NeedsReinit { reason: ReinitReason::LeftOperational } =>
                "NeedsReinit { reason: LeftOperational }",
        }
    }
}

/// The control state of a motor.
#[derive(Debug, Clone, Copy, PartialEq, Eq, Structural)]
pub enum Logic {
    /// Not enabled.
    Disabled,
    /// Operation enabled, in this mode.
    Enabled(MotorMode),
    /// The status word reports a fault.
    Error { kind: MotorErrorKind, raw_code: u16 },
}

/// What is known of one motor, for display.
#[derive(Debug)]
pub struct MotorInfo {
    pub node_id: u8,
    /// `None` as long as it has not been read.
    pub identity: Option<MotorIdentity>,
    pub lifecycle: MotorLifecycle,
    /// A heartbeat or a PDO came a short while ago.
    pub online: bool,
    pub logic: Option<Logic>,
    /// From the last heartbeat.
    pub nmt_state: Option<NmtState>,
    /// The peak torque in Nm, as read from 0x6076; `None` where the motor does
    /// not tell.
    pub peak_torque_nm: Option<Real32>,
}

impl MotorInfo {
    /// The name that a motor is shown under.
    pub open spec fn shown_name(self) -> Seq<char> {
        match self.identity {
            Some(identity) => friendly_text(identity),
            None => "Node 0x"@ + hex(self.node_id as nat, 2),
        }
    }

    /// Whether the motor is initialized and online.
    pub fn is_ready(&self) -> (r: bool)
        ensures
            r == (self.lifecycle is Initialized && self.online),
    {
        self.lifecycle.is_ready() && self.online
    }

    /// A name to show; the node id as long as the identity is not known.
    pub fn friendly_name(&self) -> (r: String)
        ensures
            r@ == self.shown_name(),
    {
        match &self.identity {
            Some(identity) => human_friendly_name(identity),
            None => {
                let mut text = "Node 0x".to_owned();
                push_hex(&mut text, self.node_id as u32, 2);
                text
            },
        }
    }
}

/// A torque: `permille` thousandths of the peak torque, and what this comes to
/// in Nm. Two of them compare by the Nm.
#[derive(Debug, Clone, Copy)]
pub struct TorqueReading {
    pub permille: i16,
    pub peak_nm: Real32,
    pub nm: Real32,
}

impl PartialEq for TorqueReading {
    fn eq(&self, other: &Self) -> (r: bool) {
        self.nm == other.nm
    }
}

impl vstd::std_specs::cmp::PartialEqSpecImpl for TorqueReading {
    open spec fn obeys_eq_spec() -> bool {
        true
    }

    open spec fn eq_spec(&self, other: &Self) -> bool {
        self.nm.same_number(other.nm)
    }
}

/// What the PDOs of a motor have reported.
#[derive(Debug, Clone, Copy, PartialEq)]
pub struct Measurements {
    /// Position within one turn, in revolutions.
    pub position_rev: Option<Real32>,
    /// Filtered velocity; kept while there are too few samples for a new one.
    pub velocity_rev_per_s: Option<Real32>,
    /// Known only where the peak torque is.
    pub torque: Option<TorqueReading>,
    /// In tenths of a degree Celsius.
    pub driver_temp_x10: Option<i16>,
    /// In tenths of a degree Celsius.
    pub motor_temp_x10: Option<i16>,
    pub status_word: Option<u16>,
    pub mode_display: Option<u8>,
    pub error_register: Option<u8>,
    /// The clock of the motor, in us; wraps around after about 71 minutes.
    pub timestamp_us: Option<u32>,
}

impl Measurements {
    /// Nothing measured.
    pub open spec fn none() -> Measurements {
        Measurements {
            position_rev: None,
            velocity_rev_per_s: None,
            torque: None,
            driver_temp_x10: None,
            motor_temp_x10: None,
            status_word: None,
            mode_display: None,
            error_register: None,
            timestamp_us: None,
        }
    }
}

impl Default for Measurements {
    fn default() -> (r: Self)
        ensures
            r == Self::none(),
    {
        Measurements {
            position_rev: None,
            velocity_rev_per_s: None,
            torque: None,
            driver_temp_x10: None,
            motor_temp_x10: None,
            status_word: None,
            mode_display: None,
            error_register: None,
            timestamp_us: None,
        }
    }
}

/// What is known of the connection to a motor.
#[derive(Debug, Clone, Copy, PartialEq, Eq, Structural)]
pub struct Connection {
    pub last_heartbeat: Option<Instant>,
    pub last_tpdo: Option<Instant>,
    pub online: bool,
    pub nmt_state: Option<NmtState>,
}

impl Connection {
    /// Nothing heard.
    pub open spec fn none() -> Connection {
        Connection { last_heartbeat: None, last_tpdo: None, online: false, nmt_state: None }
    }
}

impl Default for Connection {
    fn default() -> (r: Self)
        ensures
            r == Self::none(),
    {
        Connection { last_heartbeat: None, last_tpdo: None, online: false, nmt_state: None }
    }
}

/// A snapshot of one motor.
#[derive(Debug, Clone, Copy, PartialEq)]
pub struct LiveState {
    pub connection: Connection,
    pub logic: Option<Logic>,
    pub measurements: Measurements,
    pub timestamp: Instant,
}

impl LiveState {
    /// The snapshot of a motor of which nothing is known.
    pub open spec fn blank(now: Instant) -> LiveState {
        LiveState {
            connection: Connection::none(),
            logic: None,
            measurements: Measurements::none(),
            timestamp: now,
        }
    }

    /// The snapshot of a motor of which nothing is known.
    pub fn empty(now: Instant) -> (r: Self)
        ensures
            r == Self::blank(now),
    {
        LiveState {
            connection: Connection::default(),
            logic: None,
            measurements: Measurements::default(),
            timestamp: now,
        }
    }
}

/// Nothing is shown of a motor of which nothing is known, but the time.
pub proof fn blank_snapshot_shows_nothing(now: Instant)
    ensures
        ({
            let s = LiveState::blank(now);
            &&& s.timestamp == now
            &&& s.logic is None
            &&& !s.connection.online
            &&& s.connection.last_heartbeat is None
            &&& s.connection.last_tpdo is None
            &&& s.connection.nmt_state is None
            &&& s.measurements.position_rev is None
            &&& s.measurements.velocity_rev_per_s is None
            &&& s.measurements.torque is None
            &&& s.measurements.driver_temp_x10 is None
            &&& s.measurements.motor_temp_x10 is None
            &&& s.measurements.status_word is None
            &&& s.measurements.mode_display is None
            &&& s.measurements.error_register is None
            &&& s.measurements.timestamp_us is None
        }),
{
}

/// The names of the states of a lifecycle.
pub proof fn names_of_lifecycles(l: MotorLifecycle)
    ensures
        l is Unknown ==> l.text() == "Unknown"@,
        l is Identified ==> l.text() == "Identified"@,
        l is Initializing ==> l.text() == "Initializing"@,
        l is Initialized ==> l.text() == "Initialized"@,
        l is NeedsReinit ==> l.text() == "NeedsReinit { reason: LeftOperational }"@,
{
}

/// A motor without an identity is shown by the two digits of its node id, and
/// any other by the name that its identity gives.
pub proof fn unidentified_motor_is_shown_by_its_node(info: MotorInfo)
    ensures
        info.identity is None ==> info.shown_name().take(7) == "Node 0x"@ && number_in(
            info.shown_name().skip(7),
            16,
        ) == info.node_id,
        info.identity is Some ==> info.shown_name() == friendly_text(info.identity->0),
{
    if info.identity is None {
        reveal_strlit("Node 0x");
        numbers_are_read_back(info.node_id, 0, 0);
        assert(info.shown_name().take(7) =~= "Node 0x"@);
        assert(info.shown_name().skip(7) =~= hex(info.node_id as nat, 2));
    }
}

/// Two torques are equal exactly when they come to the same number of Nm,
/// whatever their thousandths and peaks.
pub proof fn torques_are_compared_by_nm(a: TorqueReading, b: TorqueReading)
    ensures
        a.eq_spec(&b) <==> !a.nm.nan() && !b.nm.nan() && (a.nm.bits == b.nm.bits || (
        a.nm.bits as int % 0x8000_0000 == 0 && b.nm.bits as int % 0x8000_0000 == 0)),
{
}

} // verus!
