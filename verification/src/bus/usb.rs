//! Channels on USB hardware.

use vstd::prelude::*;

use crate::bus::{Bus, ToHandle};
use crate::pcan::{ PCAN_USBBUS1, PCAN_USBBUS2, PCAN_USBBUS3, PCAN_USBBUS4, PCAN_USBBUS5,
    PCAN_USBBUS6, PCAN_USBBUS7, PCAN_USBBUS8, PCAN_USBBUS9, PCAN_USBBUS10, PCAN_USBBUS11,
    PCAN_USBBUS12, PCAN_USBBUS13, PCAN_USBBUS14, PCAN_USBBUS15, PCAN_USBBUS16};

verus! {

/// The channels the driver assigns to USB hardware.
#[derive(Debug, Clone, Copy, PartialEq, Eq, Structural)]
pub enum UsbBus {
    USB1,
    USB2,
    USB3,
    USB4,
    USB5,
    USB6,
    USB7,
    USB8,
    USB9,
    USB10,
    USB11,
    USB12,
    USB13,
    USB14,
    USB15,
    USB16,
}

impl UsbBus {
    /// The bus a channel handle names, if it names one of this kind.
    pub open spec fn spec_from_channel(value: u16) -> Option<UsbBus> {
        if value == PCAN_USBBUS1 {
            Some(UsbBus::USB1)
        } else if value == PCAN_USBBUS2 {
            Some(UsbBus::USB2)
        } else if value == PCAN_USBBUS3 {
            Some(UsbBus::USB3)
        } else if value == PCAN_USBBUS4 {
            Some(UsbBus::USB4)
        } else if value == PCAN_USBBUS5 {
            Some(UsbBus::USB5)
        } else if value == PCAN_USBBUS6 {
            Some(UsbBus::USB6)
        } else if value == PCAN_USBBUS7 {
            Some(UsbBus::USB7)
        } else if value == PCAN_USBBUS8 {
            Some(UsbBus::USB8)
        } else if value == PCAN_USBBUS9 {
            Some(UsbBus::USB9)
        } else if value == PCAN_USBBUS10 {
            Some(UsbBus::USB10)
        } else if value == PCAN_USBBUS11 {
            Some(UsbBus::USB11)
        } else if value == PCAN_USBBUS12 {
            Some(UsbBus::USB12)
        } else if value == PCAN_USBBUS13 {
            Some(UsbBus::USB13)
        } else if value == PCAN_USBBUS14 {
            Some(UsbBus::USB14)
        } else if value == PCAN_USBBUS15 {
            Some(UsbBus::USB15)
        } else if value == PCAN_USBBUS16 {
            Some(UsbBus::USB16)
        } else {
            None
        }
    }

    /// Maps a channel handle back to the bus it names; rejects every handle
    /// of another kind.
    pub fn try_from(value: u16) -> (r: Result<UsbBus, ()>)
        ensures
            match r {
                Ok(bus) => Self::spec_from_channel(value) == Some(bus),
                Err(()) => Self::spec_from_channel(value) is None,
            },
    {
        if value == PCAN_USBBUS1 {
            Ok(UsbBus::USB1)
        } else if value == PCAN_USBBUS2 {
            Ok(UsbBus::USB2)
        } else if value == PCAN_USBBUS3 {
            Ok(UsbBus::USB3)
        } else if value == PCAN_USBBUS4 {
            Ok(UsbBus::USB4)
        } else if value == PCAN_USBBUS5 {
            Ok(UsbBus::USB5)
        } else if value == PCAN_USBBUS6 {
            Ok(UsbBus::USB6)
        } else if value == PCAN_USBBUS7 {
            Ok(UsbBus::USB7)
        } else if value == PCAN_USBBUS8 {
            Ok(UsbBus::USB8)
        } else if value == PCAN_USBBUS9 {
            Ok(UsbBus::USB9)
        } else if value == PCAN_USBBUS10 {
            Ok(UsbBus::USB10)
        } else if value == PCAN_USBBUS11 {
            Ok(UsbBus::USB11)
        } else if value == PCAN_USBBUS12 {
            Ok(UsbBus::USB12)
        } else if value == PCAN_USBBUS13 {
            Ok(UsbBus::USB13)
        } else if value == PCAN_USBBUS14 {
            Ok(UsbBus::USB14)
        } else if value == PCAN_USBBUS15 {
            Ok(UsbBus::USB15)
        } else if value == PCAN_USBBUS16 {
            Ok(UsbBus::USB16)
        } else {
            Err(())
        }
    }
}

impl Bus for UsbBus {
    open spec fn spec_channel(&self) -> u16 {
        match *self {
            UsbBus::USB1 => PCAN_USBBUS1,
            UsbBus::USB2 => PCAN_USBBUS2,
            UsbBus::USB3 => PCAN_USBBUS3,
            UsbBus::USB4 => PCAN_USBBUS4,
            UsbBus::USB5 => PCAN_USBBUS5,
            UsbBus::USB6 => PCAN_USBBUS6,
            UsbBus::USB7 => PCAN_USBBUS7,
            UsbBus::USB8 => PCAN_USBBUS8,
            UsbBus::USB9 => PCAN_USBBUS9,
            UsbBus::USB10 => PCAN_USBBUS10,
            UsbBus::USB11 => PCAN_USBBUS11,
            UsbBus::USB12 => PCAN_USBBUS12,
            UsbBus::USB13 => PCAN_USBBUS13,
            UsbBus::USB14 => PCAN_USBBUS14,
            UsbBus::USB15 => PCAN_USBBUS15,
            UsbBus::USB16 => PCAN_USBBUS16,
        }
    }

    fn channel(&self) -> u16 {
        match *self {
            UsbBus::USB1 => PCAN_USBBUS1,
            UsbBus::USB2 => PCAN_USBBUS2,
            UsbBus::USB3 => PCAN_USBBUS3,
            UsbBus::USB4 => PCAN_USBBUS4,
            UsbBus::USB5 => PCAN_USBBUS5,
            UsbBus::USB6 => PCAN_USBBUS6,
            UsbBus::USB7 => PCAN_USBBUS7,
            UsbBus::USB8 => PCAN_USBBUS8,
            UsbBus::USB9 => PCAN_USBBUS9,
            UsbBus::USB10 => PCAN_USBBUS10,
            UsbBus::USB11 => PCAN_USBBUS11,
            UsbBus::USB12 => PCAN_USBBUS12,
            UsbBus::USB13 => PCAN_USBBUS13,
            UsbBus::USB14 => PCAN_USBBUS14,
            UsbBus::USB15 => PCAN_USBBUS15,
            UsbBus::USB16 => PCAN_USBBUS16,
        }
    }
}

impl ToHandle for UsbBus {
    open spec fn spec_handle(&self) -> u16 {
        self.spec_channel()
    }

    fn handle(&self) -> u16 {
        self.channel()
    }
}

/// A bus turned into its channel handle is the bus that handle names.
pub proof fn lemma_channel_round_trip(bus: UsbBus)
    ensures
        UsbBus::spec_from_channel(bus.spec_channel()) == Some(bus),
{
    match bus {
        UsbBus::USB1 => {
            assert(UsbBus::spec_from_channel(bus.spec_channel()) == Some(bus));
        },
        UsbBus::USB2 => {
            assert(UsbBus::spec_from_channel(bus.spec_channel()) == Some(bus));
        },
        UsbBus::USB3 => {
            assert(UsbBus::spec_from_channel(bus.spec_channel()) == Some(bus));
        },
        UsbBus::USB4 => {
            assert(UsbBus::spec_from_channel(bus.spec_channel()) == Some(bus));
        },
        UsbBus::USB5 => {
            assert(UsbBus::spec_from_channel(bus.spec_channel()) == Some(bus));
        },
        UsbBus::USB6 => {
            assert(UsbBus::spec_from_channel(bus.spec_channel()) == Some(bus));
        },
        UsbBus::USB7 => {
            assert(UsbBus::spec_from_channel(bus.spec_channel()) == Some(bus));
        },
        UsbBus::USB8 => {
            assert(UsbBus::spec_from_channel(bus.spec_channel()) == Some(bus));
        },
        UsbBus::USB9 => {
            assert(UsbBus::spec_from_channel(bus.spec_channel()) == Some(bus));
        },
        UsbBus::USB10 => {
            assert(UsbBus::spec_from_channel(bus.spec_channel()) == Some(bus));
        },
        UsbBus::USB11 => {
            assert(UsbBus::spec_from_channel(bus.spec_channel()) == Some(bus));
        },
        UsbBus::USB12 => {
            assert(UsbBus::spec_from_channel(bus.spec_channel()) == Some(bus));
        },
        UsbBus::USB13 => {
            assert(UsbBus::spec_from_channel(bus.spec_channel()) == Some(bus));
        },
        UsbBus::USB14 => {
            assert(UsbBus::spec_from_channel(bus.spec_channel()) == Some(bus));
        },
        UsbBus::USB15 => {
            assert(UsbBus::spec_from_channel(bus.spec_channel()) == Some(bus));
        },
        UsbBus::USB16 => {
            assert(UsbBus::spec_from_channel(bus.spec_channel()) == Some(bus));
        },
    }
}

} // verus!
