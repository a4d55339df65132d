//! Channels on PC-card hardware.

use vstd::prelude::*;

use crate::bus::{Bus, ToHandle};
use crate::pcan::{ PCAN_PCCBUS1, PCAN_PCCBUS2};

verus! {

/// The channels the driver assigns to PC-card hardware.
#[derive(Debug, Clone, Copy, PartialEq, Eq, Structural)]
pub enum PccBus {
    PCC1,
    PCC2,
}

impl PccBus {
    /// The bus a channel handle names, if it names one of this kind.
    pub open spec fn spec_from_channel(value: u16) -> Option<PccBus> {
        if value == PCAN_PCCBUS1 {
            Some(PccBus::PCC1)
        } else if value == PCAN_PCCBUS2 {
            Some(PccBus::PCC2)
        } else {
            None
        }
    }

    /// Maps a channel handle back to the bus it names; rejects every handle
    /// of another kind.
    pub fn try_from(value: u16) -> (r: Result<PccBus, ()>)
        ensures
            match r {
                Ok(bus) => Self::spec_from_channel(value) == Some(bus),
                Err(()) => Self::spec_from_channel(value) is None,
            },
    {
        if value == PCAN_PCCBUS1 {
            Ok(PccBus::PCC1)
        } else if value == PCAN_PCCBUS2 {
            Ok(PccBus::PCC2)
        } else {
            Err(())
        }
    }
}

impl Bus for PccBus {
    open spec fn spec_channel(&self) -> u16 {
        match *self {
            PccBus::PCC1 => PCAN_PCCBUS1,
            PccBus::PCC2 => PCAN_PCCBUS2,
        }
    }

    fn channel(&self) -> u16 {
        match *self {
            PccBus::PCC1 => PCAN_PCCBUS1,
            PccBus::PCC2 => PCAN_PCCBUS2,
        }
    }
}

impl ToHandle for PccBus {
    open spec fn spec_handle(&self) -> u16 {
        self.spec_channel()
    }

    fn handle(&self) -> u16 {
        self.channel()
    }
}

/// A bus turned into its channel handle is the bus that handle names.
pub proof fn lemma_channel_round_trip(bus: PccBus)
    ensures
        PccBus::spec_from_channel(bus.spec_channel()) == Some(bus),
{
    match bus {
        PccBus::PCC1 => {
            assert(PccBus::spec_from_channel(bus.spec_channel()) == Some(bus));
        },
        PccBus::PCC2 => {
            assert(PccBus::spec_from_channel(bus.spec_channel()) == Some(bus));
        },
    }
}

} // verus!
