//! What can be set of a manager.

use vstd::prelude::*;

use super::events::DEFAULT_EVENTS_CAPACITY;
use crate::error::{Error, Result};
use crate::text::{hex, push_hex};
use crate::time::{Duration, MAX_NANOS};

verus! {

/// What can be set of a manager.
#[derive(Debug, Clone, Copy, PartialEq, Eq, Structural)]
pub struct Cia402ManagerOptions {
    /// Our own node id on the bus, `1..=127`, which the motors watch. No motor
    /// may have it.
    pub heartbeat_node_id: u8,
    /// How often we send our heartbeat.
    pub heartbeat_period: Duration,
    /// How long a motor waits for our heartbeat before it stops.
    pub consumer_heartbeat_timeout: Duration,
    /// How long we wait for the reply to a read or a write.
    pub sdo_timeout: Duration,
    /// How long we wait for a motor to confirm a new mode.
    pub mode_confirm_timeout: Duration,
    /// How many events a slow subscriber may fall behind.
    pub events_capacity: usize,
    /// How often a motor sends its heartbeat.
    pub motor_heartbeat_period: Duration,
    /// How long an initialized motor may be silent before it counts as
    /// offline.
    pub initialized_stale_threshold: Duration,
    /// How far back the velocity filter looks.
    pub velocity_window: Duration,
    /// How often initialization tries to clear a fault. A single try fails
    /// about every second time.
    pub init_fault_clear_attempts: u8,
    /// Whether we send our heartbeat. Where motors are only looked for or
    /// configured, nothing need be sent: on a bus without any other node,
    /// frames that nobody acknowledges are repeated without end.
    pub broadcast_heartbeat: bool,
}

impl Default for Cia402ManagerOptions {
    fn default() -> (r: Self)
        ensures
            r.heartbeat_node_id == 0x10,
            r.heartbeat_period == Duration::millis(50),
            r.consumer_heartbeat_timeout == Duration::millis(250),
            r.sdo_timeout == Duration::millis(200),
            r.mode_confirm_timeout == Duration::millis(1000),
            r.events_capacity == DEFAULT_EVENTS_CAPACITY,
            r.events_capacity == 256,
            r.motor_heartbeat_period == Duration::millis(500),
            r.initialized_stale_threshold == Duration::millis(200),
            r.velocity_window == Duration::millis(15),
            r.init_fault_clear_attempts == 6,
            r.broadcast_heartbeat,
            r.fault() is None,
            r.wf(),
    {
        Cia402ManagerOptions {
            heartbeat_node_id: 0x10,
            heartbeat_period: Duration::from_millis(50),
            consumer_heartbeat_timeout: Duration::from_millis(250),
            sdo_timeout: Duration::from_millis(200),
            mode_confirm_timeout: Duration::from_millis(1000),
            events_capacity: DEFAULT_EVENTS_CAPACITY,
            motor_heartbeat_period: Duration::from_millis(500),
            initialized_stale_threshold: Duration::from_millis(200),
            velocity_window: Duration::from_millis(15),
            init_fault_clear_attempts: 6,
            broadcast_heartbeat: true,
        }
    }
}

impl Cia402ManagerOptions {
    /// The times that are computed from these can be held.
    pub open spec fn wf(self) -> bool {
        &&& self.motor_heartbeat_period.nanos * 2 <= MAX_NANOS
        &&& self.consumer_heartbeat_timeout.nanos + 100_000_000 <= MAX_NANOS
    }

    /// What is wrong, if anything. The first thing counts.
    pub open spec fn fault(self) -> Option<Seq<char>> {
        if !(1 <= self.heartbeat_node_id <= 127) {
            Some(
                "heartbeat_node_id must be 1..=127, got 0x"@ + hex(
                    self.heartbeat_node_id as nat,
                    2,
                ),
            )
        } else if self.heartbeat_period.nanos == 0 {
            Some("heartbeat_period must be > 0"@)
        } else if self.events_capacity == 0 {
            Some("events_capacity must be > 0"@)
        } else if self.motor_heartbeat_period.nanos == 0 {
            Some("motor_heartbeat_period must be > 0"@)
        } else if self.initialized_stale_threshold.nanos == 0 {
            Some("initialized_stale_threshold must be > 0"@)
        } else {
            None
        }
    }

    /// Checks the options.
    pub fn validate(&self) -> (r: Result<()>)
        ensures
            match self.fault() {
                Some(text) => r matches Err(e) && e.says(text),
                None => r is Ok,
            },
    {
        if self.heartbeat_node_id == 0 || self.heartbeat_node_id > 127 {
            let mut text = "heartbeat_node_id must be 1..=127, got 0x".to_owned();
            push_hex(&mut text, self.heartbeat_node_id as u32, 2);
            return Err(Error::Internal(text));
        }
        if self.heartbeat_period.is_zero() {
            return Err(Error::Internal("heartbeat_period must be > 0".to_owned()));
        }
        if self.events_capacity == 0 {
            return Err(Error::Internal("events_capacity must be > 0".to_owned()));
        }
        if self.motor_heartbeat_period.is_zero() {
            return Err(Error::Internal("motor_heartbeat_period must be > 0".to_owned()));
        }
        if self.initialized_stale_threshold.is_zero() {
            return Err(Error::Internal("initialized_stale_threshold must be > 0".to_owned()));
        }
        Ok(())
    }

    /// The work that goes on in the background.
    pub open spec fn background(self) -> Seq<BackgroundTask> {
        (if self.broadcast_heartbeat {
            seq![BackgroundTask::HeartbeatBroadcast]
        } else {
            seq![]
        }) + seq![
            BackgroundTask::Discovery,
            BackgroundTask::TpdoListener,
            BackgroundTask::LivenessMonitor,
        ]
    }

    /// The work to start in the background, in this order.
    pub fn background_tasks(&self) -> (r: Vec<BackgroundTask>)
        ensures
            r@ == self.background(),
    {
        let mut tasks: Vec<BackgroundTask> = Vec::new();
        if self.broadcast_heartbeat {
            tasks.push(BackgroundTask::HeartbeatBroadcast);
        }
        tasks.push(BackgroundTask::Discovery);
        tasks.push(BackgroundTask::TpdoListener);
        tasks.push(BackgroundTask::LivenessMonitor);
        assert(tasks@ =~= self.background());
        tasks
    }
}

/// Work that goes on in the background.
#[derive(Debug, Clone, Copy, PartialEq, Eq, Structural)]
pub enum BackgroundTask {
    /// Sends our heartbeat.
    HeartbeatBroadcast,
    /// Takes the heartbeats of motors.
    Discovery,
    /// Takes the PDOs of motors.
    TpdoListener,
    /// Looks which motors are still there.
    LivenessMonitor,
}

/// Which options are refused: a node id of our own outside `1..=127`, or a
/// period, a threshold or a capacity of zero. The others are taken as they are.
pub proof fn refused_options(o: Cia402ManagerOptions)
    ensures
        o.fault() is None <==> {
            &&& 0 < o.heartbeat_node_id < 128
            &&& o.heartbeat_period.nanos > 0
            &&& o.events_capacity > 0
            &&& o.motor_heartbeat_period.nanos > 0
            &&& o.initialized_stale_threshold.nanos > 0
        },
{
}

/// Motors are always looked for, listened to and looked after; our heartbeat is
/// sent exactly where it is asked for. Nothing is started twice.
pub proof fn background_work(o: Cia402ManagerOptions, i: int, j: int)
    ensures
        o.background().contains(BackgroundTask::HeartbeatBroadcast) <==> o.broadcast_heartbeat,
        o.background().contains(BackgroundTask::Discovery),
        o.background().contains(BackgroundTask::TpdoListener),
        o.background().contains(BackgroundTask::LivenessMonitor),
        0 <= i < j < o.background().len() ==> o.background()[i] != o.background()[j],
{
    let b = o.background();
    let n = b.len() as int;
    assert(b[n - 1] == BackgroundTask::LivenessMonitor);
    assert(b[n - 2] == BackgroundTask::TpdoListener);
    assert(b[n - 3] == BackgroundTask::Discovery);
    if o.broadcast_heartbeat {
        assert(b[0] == BackgroundTask::HeartbeatBroadcast);
    }
}

/// What refused options are answered, in words: of several things that are
/// wrong the first in this order.
pub proof fn refused_options_in_words(o: Cia402ManagerOptions)
    ensures
        ({
            let id = 0 < o.heartbeat_node_id < 128;
            let period = o.heartbeat_period.nanos > 0;
            let capacity = o.events_capacity > 0;
            let motor = o.motor_heartbeat_period.nanos > 0;
            &&& !id ==> o.fault() == Some(
                "heartbeat_node_id must be 1..=127, got 0x"@ + hex(o.heartbeat_node_id as nat, 2),
            )
            &&& id && !period ==> o.fault() == Some("heartbeat_period must be > 0"@)
            &&& id && period && !capacity ==> o.fault() == Some("events_capacity must be > 0"@)
            &&& id && period && capacity && !motor ==> o.fault() == Some(
                "motor_heartbeat_period must be > 0"@,
            )
            &&& id && period && capacity && motor && o.initialized_stale_threshold.nanos == 0
                ==> o.fault() == Some("initialized_stale_threshold must be > 0"@)
        }),
{
}

/// Our heartbeat is started before all else, so that motors that watch it find
/// it; then they are looked for, listened to and looked after.
pub proof fn heartbeat_is_started_first(o: Cia402ManagerOptions)
    ensures
        ({
            let b = o.background();
            let n = b.len() as int;
            &&& o.broadcast_heartbeat ==> n == 4 && b[0] is HeartbeatBroadcast
            &&& !o.broadcast_heartbeat ==> n == 3
            &&& b[n - 3] is Discovery
            &&& b[n - 2] is TpdoListener
            &&& b[n - 1] is LivenessMonitor
        }),
{
}

} // verus!
