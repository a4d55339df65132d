//! The socket for channels on ISA hardware.

use vstd::prelude::*;

use crate::bus::ToHandle;

verus! {

/// A socket on a channel of ISA hardware, holding the channel handle the driver
/// assigned.
#[derive(Debug, Clone, Copy, PartialEq, Eq, Structural)]
pub struct IsaCanSocket {
    pub handle: u16,
}

impl IsaCanSocket {
    /// Wraps a channel handle an initialize call returned.
    pub fn new(handle: u16) -> (r: IsaCanSocket)
        ensures
            r.handle == handle,
    {
        IsaCanSocket { handle }
    }
}

impl ToHandle for IsaCanSocket {
    open spec fn spec_handle(&self) -> u16 {
        self.handle
    }

    fn handle(&self) -> u16 {
        self.handle
    }
}

} // verus!
