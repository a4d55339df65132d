//! The socket for channels on USB hardware.

use vstd::prelude::*;

use crate::bus::ToHandle;

verus! {

/// A socket on a channel of USB hardware, holding the channel handle the driver
/// assigned.
#[derive(Debug, Clone, Copy, PartialEq, Eq, Structural)]
pub struct UsbCanSocket {
    pub handle: u16,
}

impl UsbCanSocket {
    /// Wraps a channel handle an initialize call returned.
    pub fn new(handle: u16) -> (r: UsbCanSocket)
        ensures
            r.handle == handle,
    {
        UsbCanSocket { handle }
    }
}

impl ToHandle for UsbCanSocket {
    open spec fn spec_handle(&self) -> u16 {
        self.handle
    }

    fn handle(&self) -> u16 {
        self.handle
    }
}

} // verus!
