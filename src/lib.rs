//! Register access for the NXP PCAL6416A 16-bit I2C IO expander.
//!
//! The library is the pure half of the driver: it resolves the device's bus
//! address, frames register reads and writes as bus transactions, lifts bus
//! errors into the driver's error type, and packs register bytes to and from
//! named bit fields. Performing the transactions on an actual bus is left to
//! the caller, so blocking and suspending callers share every byte of framing.
use vstd::prelude::*;

pub mod address;
pub mod bridge;
pub mod error;
pub mod field;

pub use address::AddrPinState;
pub use bridge::{complete_read, Pcal6416aDevice, Transaction};
pub use error::{complete, Pcal6416aError};

verus! {

} // verus!
