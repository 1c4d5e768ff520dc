//! Timing and serial-bus transaction engines for STM32G4 peripherals.
//!
//! The library computes what the hardware must be told and decides what to
//! do with what the hardware reports; the register accesses themselves are
//! made by the caller, who hands status flags in and carries out the actions
//! that come back.
use vstd::prelude::*;

pub mod time;
pub mod timer;
pub mod delay;
pub mod error;
pub mod i2c;
pub mod spi;

verus! {

/// Marker for types that only this crate may implement a trait for.
pub trait Sealed {}

} // verus!
