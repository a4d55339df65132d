//! The socket for channels on PCI hardware.

use vstd::prelude::*;

use crate::bus::ToHandle;

verus! {

/// A socket on a channel of PCI hardware, holding the channel handle the driver
/// assigned.
#[derive(Debug, Clone, Copy, PartialEq, Eq, Structural)]
pub struct PciCanSocket {
    pub handle: u16,
}

impl PciCanSocket {
    /// Wraps a channel handle an initialize call returned.
    pub fn new(handle: u16) -> (r: PciCanSocket)
        ensures
            r.handle == handle,
    {
        PciCanSocket { handle }
    }
}

impl ToHandle for PciCanSocket {
    open spec fn spec_handle(&self) -> u16 {
        self.handle
    }

    fn handle(&self) -> u16 {
        self.handle
    }
}

} // verus!
