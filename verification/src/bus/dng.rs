//! Channels on parallel-port dongles.

use vstd::prelude::*;

use crate::bus::{Bus, ToHandle};
use crate::pcan::{ PCAN_DNGBUS1};

verus! {

/// The channels the driver assigns to parallel-port dongles.
#[derive(Debug, Clone, Copy, PartialEq, Eq, Structural)]
pub enum DngBus {
    DNG1,
}

impl DngBus {
    /// The bus a channel handle names, if it names one of this kind.
    pub open spec fn spec_from_channel(value: u16) -> Option<DngBus> {
        if value == PCAN_DNGBUS1 {
            Some(DngBus::DNG1)
        } else {
            None
        }
    }

    /// Maps a channel handle back to the bus it names; rejects every handle
    /// of another kind.
    pub fn try_from(value: u16) -> (r: Result<DngBus, ()>)
        ensures
            match r {
                Ok(bus) => Self::spec_from_channel(value) == Some(bus),
                Err(()) => Self::spec_from_channel(value) is None,
            },
    {
        if value == PCAN_DNGBUS1 {
            Ok(DngBus::DNG1)
        } else {
            Err(())
        }
    }
}

impl Bus for DngBus {
    open spec fn spec_channel(&self) -> u16 {
        match *self {
            DngBus::DNG1 => PCAN_DNGBUS1,
        }
    }

    fn channel(&self) -> u16 {
        match *self {
            DngBus::DNG1 => PCAN_DNGBUS1,
        }
    }
}

impl ToHandle for DngBus {
    open spec fn spec_handle(&self) -> u16 {
        self.spec_channel()
    }

    fn handle(&self) -> u16 {
        self.channel()
    }
}

/// A bus turned into its channel handle is the bus that handle names.
pub proof fn lemma_channel_round_trip(bus: DngBus)
    ensures
        DngBus::spec_from_channel(bus.spec_channel()) == Some(bus),
{
    match bus {
        DngBus::DNG1 => {
            assert(DngBus::spec_from_channel(bus.spec_channel()) == Some(bus));
        },
    }
}

} // verus!
