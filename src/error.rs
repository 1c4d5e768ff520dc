//! Errors that the bus engines report.
use vstd::prelude::*;

verus! {

/// Which part of an I2C transfer was not acknowledged.
#[derive(Clone, Copy, Debug, PartialEq, Eq, Structural)]
pub enum NoAcknowledgeSource {
    /// The address was not acknowledged.
    Address,
    /// A data byte was not acknowledged.
    Data,
    /// The hardware does not tell which.
    Unknown,
}

/// A bus error, as the hardware flags report it.
#[derive(Clone, Copy, Debug, PartialEq, Eq, Structural)]
pub enum ErrorKind {
    /// A misplaced start or stop condition on the bus.
    Bus,
    /// Another master took the bus.
    ArbitrationLoss,
    /// The target did not acknowledge.
    NoAcknowledge(NoAcknowledgeSource),
    /// Received data was lost before it was read.
    Overrun,
    /// The peripheral left master mode.
    ModeFault,
}

} // verus!
