//! CiA402 motors.

pub mod codec;
pub mod compressed_mit;
pub mod discovery;
pub mod events;
pub mod inflight;
pub mod initialize;
pub mod known_devices;
pub mod manager;
pub mod motor_entry;
pub mod options;
pub mod registry;
pub mod sequences;
pub mod subscribe;
pub mod tpdo_listener;
pub mod types;
pub mod velocity;

pub use compressed_mit::{CompressedMitMapping, CompressedMitTarget, DEFAULT_SHARED_COB_ID};
pub use events::{Cia402Event, EventStreamItem};
pub use initialize::{
    default_tpdo1_comm, default_tpdo1_entries, default_tpdo1_recipe, default_tpdo2_comm,
    default_tpdo2_entries, default_tpdo2_recipe,
};
pub use manager::Cia402Manager;
pub use options::Cia402ManagerOptions;
pub use subscribe::{
    OverflowPolicy, StatusStream, StatusStreamItem, StreamOptions, DEFAULT_STREAM_CAPACITY,
};
pub use types::{
    Connection, LiveState, Logic, Measurements, MotorInfo, MotorLifecycle, ReinitReason,
};
