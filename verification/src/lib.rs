//! A driver for HEX-MECHA CiA402 motors on a CAN bus.
//!
//! The library decides and computes; it sends nothing, waits for nothing and
//! reads no clock. Frames, replies and times are handed to it, and it says
//! what to send, what to wait for and what has happened.

pub mod canopen;
pub mod cia402;
pub mod error;
pub mod number;
pub mod text;
pub mod time;
pub mod types;

pub use error::{Error, Result};
