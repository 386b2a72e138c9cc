//! CANopen primitives, independent of any motor family.

pub mod bytes;
pub mod cob;
pub mod dictionary;
pub mod frame;
pub mod heartbeat;
pub mod nmt;
pub mod rpdo_config;
pub mod sdo;
pub mod tpdo_config;
