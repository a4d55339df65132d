//! Channels on LAN services.

use vstd::prelude::*;

use crate::bus::{Bus, ToHandle};
use crate::pcan::{ PCAN_LANBUS1, PCAN_LANBUS2, PCAN_LANBUS3, PCAN_LANBUS4, PCAN_LANBUS5,
    PCAN_LANBUS6, PCAN_LANBUS7, PCAN_LANBUS8, PCAN_LANBUS9, PCAN_LANBUS10, PCAN_LANBUS11,
    PCAN_LANBUS12, PCAN_LANBUS13, PCAN_LANBUS14, PCAN_LANBUS15, PCAN_LANBUS16};

verus! {

/// The channels the driver assigns to LAN services.
#[derive(Debug, Clone, Copy, PartialEq, Eq, Structural)]
pub enum LanBus {
    LAN1,
    LAN2,
    LAN3,
    LAN4,
    LAN5,
    LAN6,
    LAN7,
    LAN8,
    LAN9,
    LAN10,
    LAN11,
    LAN12,
    LAN13,
    LAN14,
    LAN15,
    LAN16,
}

impl LanBus {
    /// The bus a channel handle names, if it names one of this kind.
    pub open spec fn spec_from_channel(value: u16) -> Option<LanBus> {
        if value == PCAN_LANBUS1 {
            Some(LanBus::LAN1)
        } else if value == PCAN_LANBUS2 {
            Some(LanBus::LAN2)
        } else if value == PCAN_LANBUS3 {
            Some(LanBus::LAN3)
        } else if value == PCAN_LANBUS4 {
            Some(LanBus::LAN4)
        } else if value == PCAN_LANBUS5 {
            Some(LanBus::LAN5)
        } else if value == PCAN_LANBUS6 {
            Some(LanBus::LAN6)
        } else if value == PCAN_LANBUS7 {
            Some(LanBus::LAN7)
        } else if value == PCAN_LANBUS8 {
            Some(LanBus::LAN8)
        } else if value == PCAN_LANBUS9 {
            Some(LanBus::LAN9)
        } else if value == PCAN_LANBUS10 {
            Some(LanBus::LAN10)
        } else if value == PCAN_LANBUS11 {
            Some(LanBus::LAN11)
        } else if value == PCAN_LANBUS12 {
            Some(LanBus::LAN12)
        } else if value == PCAN_LANBUS13 {
            Some(LanBus::LAN13)
        } else if value == PCAN_LANBUS14 {
            Some(LanBus::LAN14)
        } else if value == PCAN_LANBUS15 {
            Some(LanBus::LAN15)
        } else if value == PCAN_LANBUS16 {
            Some(LanBus::LAN16)
        } else {
            None
        }
    }

    /// Maps a channel handle back to the bus it names; rejects every handle
    /// of another kind.
    pub fn try_from(value: u16) -> (r: Result<LanBus, ()>)
        ensures
            match r {
                Ok(bus) => Self::spec_from_channel(value) == Some(bus),
                Err(()) => Self::spec_from_channel(value) is None,
            },
    {
        if value == PCAN_LANBUS1 {
            Ok(LanBus::LAN1)
        } else if value == PCAN_LANBUS2 {
            Ok(LanBus::LAN2)
        } else if value == PCAN_LANBUS3 {
            Ok(LanBus::LAN3)
        } else if value == PCAN_LANBUS4 {
            Ok(LanBus::LAN4)
        } else if value == PCAN_LANBUS5 {
            Ok(LanBus::LAN5)
        } else if value == PCAN_LANBUS6 {
            Ok(LanBus::LAN6)
        } else if value == PCAN_LANBUS7 {
            Ok(LanBus::LAN7)
        } else if value == PCAN_LANBUS8 {
            Ok(LanBus::LAN8)
        } else if value == PCAN_LANBUS9 {
            Ok(LanBus::LAN9)
        } else if value == PCAN_LANBUS10 {
            Ok(LanBus::LAN10)
        } else if value == PCAN_LANBUS11 {
            Ok(LanBus::LAN11)
        } else if value == PCAN_LANBUS12 {
            Ok(LanBus::LAN12)
        } else if value == PCAN_LANBUS13 {
            Ok(LanBus::LAN13)
        } else if value == PCAN_LANBUS14 {
            Ok(LanBus::LAN14)
        } else if value == PCAN_LANBUS15 {
            Ok(LanBus::LAN15)
        } else if value == PCAN_LANBUS16 {
            Ok(LanBus::LAN16)
        } else {
            Err(())
        }
    }
}

impl Bus for LanBus {
    open spec fn spec_channel(&self) -> u16 {
        match *self {
            LanBus::LAN1 => PCAN_LANBUS1,
            LanBus::LAN2 => PCAN_LANBUS2,
            LanBus::LAN3 => PCAN_LANBUS3,
            LanBus::LAN4 => PCAN_LANBUS4,
            LanBus::LAN5 => PCAN_LANBUS5,
            LanBus::LAN6 => PCAN_LANBUS6,
            LanBus::LAN7 => PCAN_LANBUS7,
            LanBus::LAN8 => PCAN_LANBUS8,
            LanBus::LAN9 => PCAN_LANBUS9,
            LanBus::LAN10 => PCAN_LANBUS10,
            LanBus::LAN11 => PCAN_LANBUS11,
            LanBus::LAN12 => PCAN_LANBUS12,
            LanBus::LAN13 => PCAN_LANBUS13,
            LanBus::LAN14 => PCAN_LANBUS14,
            LanBus::LAN15 => PCAN_LANBUS15,
            LanBus::LAN16 => PCAN_LANBUS16,
        }
    }

    fn channel(&self) -> u16 {
        match *self {
            LanBus::LAN1 => PCAN_LANBUS1,
            LanBus::LAN2 => PCAN_LANBUS2,
            LanBus::LAN3 => PCAN_LANBUS3,
            LanBus::LAN4 => PCAN_LANBUS4,
            LanBus::LAN5 => PCAN_LANBUS5,
            LanBus::LAN6 => PCAN_LANBUS6,
            LanBus::LAN7 => PCAN_LANBUS7,
            LanBus::LAN8 => PCAN_LANBUS8,
            LanBus::LAN9 => PCAN_LANBUS9,
            LanBus::LAN10 => PCAN_LANBUS10,
            LanBus::LAN11 => PCAN_LANBUS11,
            LanBus::LAN12 => PCAN_LANBUS12,
            LanBus::LAN13 => PCAN_LANBUS13,
            LanBus::LAN14 => PCAN_LANBUS14,
            LanBus::LAN15 => PCAN_LANBUS15,
            LanBus::LAN16 => PCAN_LANBUS16,
        }
    }
}

impl ToHandle for LanBus {
    open spec fn spec_handle(&self) -> u16 {
        self.spec_channel()
    }

    fn handle(&self) -> u16 {
        self.channel()
    }
}

/// A bus turned into its channel handle is the bus that handle names.
pub proof fn lemma_channel_round_trip(bus: LanBus)
    ensures
        LanBus::spec_from_channel(bus.spec_channel()) == Some(bus),
{
    match bus {
        LanBus::LAN1 => {
            assert(LanBus::spec_from_channel(bus.spec_channel()) == Some(bus));
        },
        LanBus::LAN2 => {
            assert(LanBus::spec_from_channel(bus.spec_channel()) == Some(bus));
        },
        LanBus::LAN3 => {
            assert(LanBus::spec_from_channel(bus.spec_channel()) == Some(bus));
        },
        LanBus::LAN4 => {
            assert(LanBus::spec_from_channel(bus.spec_channel()) == Some(bus));
        },
        LanBus::LAN5 => {
            assert(LanBus::spec_from_channel(bus.spec_channel()) == Some(bus));
        },
        LanBus::LAN6 => {
            assert(LanBus::spec_from_channel(bus.spec_channel()) == Some(bus));
        },
        LanBus::LAN7 => {
            assert(LanBus::spec_from_channel(bus.spec_channel()) == Some(bus));
        },
        LanBus::LAN8 => {
            assert(LanBus::spec_from_channel(bus.spec_channel()) == Some(bus));
        },
        LanBus::LAN9 => {
            assert(LanBus::spec_from_channel(bus.spec_channel()) == Some(bus));
        },
        LanBus::LAN10 => {
            assert(LanBus::spec_from_channel(bus.spec_channel()) == Some(bus));
        },
        LanBus::LAN11 => {
            assert(LanBus::spec_from_channel(bus.spec_channel()) == Some(bus));
        },
        LanBus::LAN12 => {
            assert(LanBus::spec_from_channel(bus.spec_channel()) == Some(bus));
        },
        LanBus::LAN13 => {
            assert(LanBus::spec_from_channel(bus.spec_channel()) == Some(bus));
        },
        LanBus::LAN14 => {
            assert(LanBus::spec_from_channel(bus.spec_channel()) == Some(bus));
        },
        LanBus::LAN15 => {
            assert(LanBus::spec_from_channel(bus.spec_channel()) == Some(bus));
        },
        LanBus::LAN16 => {
            assert(LanBus::spec_from_channel(bus.spec_channel()) == Some(bus));
        },
    }
}

} // verus!
