//! The socket for channels on PC-card hardware.

use vstd::prelude::*;

use crate::bus::ToHandle;

verus! {

/// A socket on a channel of PC-card hardware, holding the channel handle the driver
/// assigned.
#[derive(Debug, Clone, Copy, PartialEq, Eq, Structural)]
pub struct PccCanSocket {
    pub handle: u16,
}

impl PccCanSocket {
    /// Wraps a channel handle an initialize call returned.
    pub fn new(handle: u16) -> (r: PccCanSocket)
        ensures
            r.handle == handle,
    {
        PccCanSocket { handle }
    }
}

impl ToHandle for PccCanSocket {
    open spec fn spec_handle(&self) -> u16 {
        self.handle
    }

    fn handle(&self) -> u16 {
        self.handle
    }
}

} // verus!
