//! The buses a channel can sit on.
//!
//! Each bus kind is an enum whose variants name the channels the driver
//! assigns to that kind of hardware; converting a variant to its 16-bit
//! channel handle and back is the whole behaviour.

use vstd::prelude::*;

pub mod dng;
pub mod isa;
pub mod lan;
pub mod pcc;
pub mod pci;
pub mod usb;

pub use dng::DngBus;
pub use isa::IsaBus;
pub use lan::LanBus;
pub use pcc::PccBus;
pub use pci::PciBus;
pub use usb::UsbBus;

verus! {

/// A bus value that knows the channel handle the driver gave it.
pub trait Bus: Sized {
    /// The channel handle of this bus.
    spec fn spec_channel(&self) -> u16;

    /// Returns the channel handle of this bus.
    fn channel(&self) -> (r: u16)
        ensures
            r == self.spec_channel(),
    ;
}

/// The older name for the same conversion: a value that turns into a
/// channel handle.
pub trait ToHandle: Sized {
    /// The channel handle of this value.
    spec fn spec_handle(&self) -> u16;

    /// Returns the channel handle of this value.
    fn handle(&self) -> (r: u16)
        ensures
            r == self.spec_handle(),
    ;
}

} // verus!
