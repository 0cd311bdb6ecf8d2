//! Error and address-selector types shared by every part of the driver.

use vstd::prelude::*;

verus! {

/// Everything that can go wrong in a driver operation.
#[derive(Debug)]
pub enum Error<E> {
    /// The bus reported a failure during a transfer; the payload is the
    /// bus's own error, passed on unchanged.
    BusError(E),
    /// An explicitly chosen device address lies outside the range the chip
    /// family accepts.
    InvalidInputData,
}

/// How the caller names the device on the bus.
#[derive(Debug, Clone, Copy, PartialEq, Eq, Structural)]
pub enum SlaveAddr {
    /// The address the chip variant leaves the factory with.
    Default,
    /// An explicit 7-bit address.
    Alternative(u8),
}

impl Default for SlaveAddr {
    fn default() -> (selector: Self)
        ensures
            selector == SlaveAddr::Default,
    {
        SlaveAddr::Default
    }
}

} // verus!
