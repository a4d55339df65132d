//! The socket for channels on parallel-port dongles.

use vstd::prelude::*;

use crate::bus::ToHandle;

verus! {

/// A socket on a channel of parallel-port dongles, holding the channel handle the driver
/// assigned.
#[derive(Debug, Clone, Copy, PartialEq, Eq, Structural)]
pub struct DngCanSocket {
    pub handle: u16,
}

impl DngCanSocket {
    /// Wraps a channel handle an initialize call returned.
    pub fn new(handle: u16) -> (r: DngCanSocket)
        ensures
            r.handle == handle,
    {
        DngCanSocket { handle }
    }
}

impl ToHandle for DngCanSocket {
    open spec fn spec_handle(&self) -> u16 {
        self.handle
    }

    fn handle(&self) -> u16 {
        self.handle
    }
}

} // verus!
