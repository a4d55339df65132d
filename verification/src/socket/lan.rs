//! The socket for channels on LAN services.

use vstd::prelude::*;

use crate::bus::ToHandle;

verus! {

/// A socket on a channel of LAN services, holding the channel handle the driver
/// assigned.
#[derive(Debug, Clone, Copy, PartialEq, Eq, Structural)]
pub struct LanCanSocket {
    pub handle: u16,
}

impl LanCanSocket {
    /// Wraps a channel handle an initialize call returned.
    pub fn new(handle: u16) -> (r: LanCanSocket)
        ensures
            r.handle == handle,
    {
        LanCanSocket { handle }
    }
}

impl ToHandle for LanCanSocket {
    open spec fn spec_handle(&self) -> u16 {
        self.handle
    }

    fn handle(&self) -> u16 {
        self.handle
    }
}

} // verus!
