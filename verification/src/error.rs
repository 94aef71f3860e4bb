//! The failures that the driver and its host can report.

use vstd::prelude::*;

verus! {

/// A failure of the host while it performs a bus event.
#[derive(Clone, Copy, Debug, PartialEq, Eq, Structural)]
pub enum IoError {
    /// A write on the serial bus failed.
    Spi,
    /// A control pin could not be driven, or the busy pin could not be read.
    Pin,
    /// The controller stayed busy for longer than the host allows.
    Timeout,
}

/// A request that the driver rejects before it queues any bus traffic.
#[derive(Clone, Copy, Debug, PartialEq, Eq, Structural)]
pub enum DriverError {
    /// The window or the buffer length of a partial update is inconsistent.
    Geometry,
    /// The controller is in deep sleep and has to be woken up first.
    State,
}

} // verus!
