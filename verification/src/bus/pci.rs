//! Channels on PCI hardware.

use vstd::prelude::*;

use crate::bus::{Bus, ToHandle};
use crate::pcan::{ PCAN_PCIBUS1, PCAN_PCIBUS2, PCAN_PCIBUS3, PCAN_PCIBUS4, PCAN_PCIBUS5,
    PCAN_PCIBUS6, PCAN_PCIBUS7, PCAN_PCIBUS8, PCAN_PCIBUS9, PCAN_PCIBUS10, PCAN_PCIBUS11,
    PCAN_PCIBUS12, PCAN_PCIBUS13, PCAN_PCIBUS14, PCAN_PCIBUS15, PCAN_PCIBUS16};

verus! {

/// The channels the driver assigns to PCI hardware.
#[derive(Debug, Clone, Copy, PartialEq, Eq, Structural)]
pub enum PciBus {
    PCI1,
    PCI2,
    PCI3,
    PCI4,
    PCI5,
    PCI6,
    PCI7,
    PCI8,
    PCI9,
    PCI10,
    PCI11,
    PCI12,
    PCI13,
    PCI14,
    PCI15,
    PCI16,
}

impl PciBus {
    /// The bus a channel handle names, if it names one of this kind.
    pub open spec fn spec_from_channel(value: u16) -> Option<PciBus> {
        if value == PCAN_PCIBUS1 {
            Some(PciBus::PCI1)
        } else if value == PCAN_PCIBUS2 {
            Some(PciBus::PCI2)
        } else if value == PCAN_PCIBUS3 {
            Some(PciBus::PCI3)
        } else if value == PCAN_PCIBUS4 {
            Some(PciBus::PCI4)
        } else if value == PCAN_PCIBUS5 {
            Some(PciBus::PCI5)
        } else if value == PCAN_PCIBUS6 {
            Some(PciBus::PCI6)
        } else if value == PCAN_PCIBUS7 {
            Some(PciBus::PCI7)
        } else if value == PCAN_PCIBUS8 {
            Some(PciBus::PCI8)
        } else if value == PCAN_PCIBUS9 {
            Some(PciBus::PCI9)
        } else if value == PCAN_PCIBUS10 {
            Some(PciBus::PCI10)
        } else if value == PCAN_PCIBUS11 {
            Some(PciBus::PCI11)
        } else if value == PCAN_PCIBUS12 {
            Some(PciBus::PCI12)
        } else if value == PCAN_PCIBUS13 {
            Some(PciBus::PCI13)
        } else if value == PCAN_PCIBUS14 {
            Some(PciBus::PCI14)
        } else if value == PCAN_PCIBUS15 {
            Some(PciBus::PCI15)
        } else if value == PCAN_PCIBUS16 {
            Some(PciBus::PCI16)
        } else {
            None
        }
    }

    /// Maps a channel handle back to the bus it names; rejects every handle
    /// of another kind.
    pub fn try_from(value: u16) -> (r: Result<PciBus, ()>)
        ensures
            match r {
                Ok(bus) => Self::spec_from_channel(value) == Some(bus),
                Err(()) => Self::spec_from_channel(value) is None,
            },
    {
        if value == PCAN_PCIBUS1 {
            Ok(PciBus::PCI1)
        } else if value == PCAN_PCIBUS2 {
            Ok(PciBus::PCI2)
        } else if value == PCAN_PCIBUS3 {
            Ok(PciBus::PCI3)
        } else if value == PCAN_PCIBUS4 {
            Ok(PciBus::PCI4)
        } else if value == PCAN_PCIBUS5 {
            Ok(PciBus::PCI5)
        } else if value == PCAN_PCIBUS6 {
            Ok(PciBus::PCI6)
        } else if value == PCAN_PCIBUS7 {
            Ok(PciBus::PCI7)
        } else if value == PCAN_PCIBUS8 {
            Ok(PciBus::PCI8)
        } else if value == PCAN_PCIBUS9 {
            Ok(PciBus::PCI9)
        } else if value == PCAN_PCIBUS10 {
            Ok(PciBus::PCI10)
        } else if value == PCAN_PCIBUS11 {
            Ok(PciBus::PCI11)
        } else if value == PCAN_PCIBUS12 {
            Ok(PciBus::PCI12)
        } else if value == PCAN_PCIBUS13 {
            Ok(PciBus::PCI13)
        } else if value == PCAN_PCIBUS14 {
            Ok(PciBus::PCI14)
        } else if value == PCAN_PCIBUS15 {
            Ok(PciBus::PCI15)
        } else if value == PCAN_PCIBUS16 {
            Ok(PciBus::PCI16)
        } else {
            Err(())
        }
    }
}

impl Bus for PciBus {
    open spec fn spec_channel(&self) -> u16 {
        match *self {
            PciBus::PCI1 => PCAN_PCIBUS1,
            PciBus::PCI2 => PCAN_PCIBUS2,
            PciBus::PCI3 => PCAN_PCIBUS3,
            PciBus::PCI4 => PCAN_PCIBUS4,
            PciBus::PCI5 => PCAN_PCIBUS5,
            PciBus::PCI6 => PCAN_PCIBUS6,
            PciBus::PCI7 => PCAN_PCIBUS7,
            PciBus::PCI8 => PCAN_PCIBUS8,
            PciBus::PCI9 => PCAN_PCIBUS9,
            PciBus::PCI10 => PCAN_PCIBUS10,
            PciBus::PCI11 => PCAN_PCIBUS11,
            PciBus::PCI12 => PCAN_PCIBUS12,
            PciBus::PCI13 => PCAN_PCIBUS13,
            PciBus::PCI14 => PCAN_PCIBUS14,
            PciBus::PCI15 => PCAN_PCIBUS15,
            PciBus::PCI16 => PCAN_PCIBUS16,
        }
    }

    fn channel(&self) -> u16 {
        match *self {
            PciBus::PCI1 => PCAN_PCIBUS1,
            PciBus::PCI2 => PCAN_PCIBUS2,
            PciBus::PCI3 => PCAN_PCIBUS3,
            PciBus::PCI4 => PCAN_PCIBUS4,
            PciBus::PCI5 => PCAN_PCIBUS5,
            PciBus::PCI6 => PCAN_PCIBUS6,
            PciBus::PCI7 => PCAN_PCIBUS7,
            PciBus::PCI8 => PCAN_PCIBUS8,
            PciBus::PCI9 => PCAN_PCIBUS9,
            PciBus::PCI10 => PCAN_PCIBUS10,
            PciBus::PCI11 => PCAN_PCIBUS11,
            PciBus::PCI12 => PCAN_PCIBUS12,
            PciBus::PCI13 => PCAN_PCIBUS13,
            PciBus::PCI14 => PCAN_PCIBUS14,
            PciBus::PCI15 => PCAN_PCIBUS15,
            PciBus::PCI16 => PCAN_PCIBUS16,
        }
    }
}

impl ToHandle for PciBus {
    open spec fn spec_handle(&self) -> u16 {
        self.spec_channel()
    }

    fn handle(&self) -> u16 {
        self.channel()
    }
}

/// A bus turned into its channel handle is the bus that handle names.
pub proof fn lemma_channel_round_trip(bus: PciBus)
    ensures
        PciBus::spec_from_channel(bus.spec_channel()) == Some(bus),
{
    match bus {
        PciBus::PCI1 => {
            assert(PciBus::spec_from_channel(bus.spec_channel()) == Some(bus));
        },
        PciBus::PCI2 => {
            assert(PciBus::spec_from_channel(bus.spec_channel()) == Some(bus));
        },
        PciBus::PCI3 => {
            assert(PciBus::spec_from_channel(bus.spec_channel()) == Some(bus));
        },
        PciBus::PCI4 => {
            assert(PciBus::spec_from_channel(bus.spec_channel()) == Some(bus));
        },
        PciBus::PCI5 => {
            assert(PciBus::spec_from_channel(bus.spec_channel()) == Some(bus));
        },
        PciBus::PCI6 => {
            assert(PciBus::spec_from_channel(bus.spec_channel()) == Some(bus));
        },
        PciBus::PCI7 => {
            assert(PciBus::spec_from_channel(bus.spec_channel()) == Some(bus));
        },
        PciBus::PCI8 => {
            assert(PciBus::spec_from_channel(bus.spec_channel()) == Some(bus));
        },
        PciBus::PCI9 => {
            assert(PciBus::spec_from_channel(bus.spec_channel()) == Some(bus));
        },
        PciBus::PCI10 => {
            assert(PciBus::spec_from_channel(bus.spec_channel()) == Some(bus));
        },
        PciBus::PCI11 => {
            assert(PciBus::spec_from_channel(bus.spec_channel()) == Some(bus));
        },
        PciBus::PCI12 => {
            assert(PciBus::spec_from_channel(bus.spec_channel()) == Some(bus));
        },
        PciBus::PCI13 => {
            assert(PciBus::spec_from_channel(bus.spec_channel()) == Some(bus));
        },
        PciBus::PCI14 => {
            assert(PciBus::spec_from_channel(bus.spec_channel()) == Some(bus));
        },
        PciBus::PCI15 => {
            assert(PciBus::spec_from_channel(bus.spec_channel()) == Some(bus));
        },
        PciBus::PCI16 => {
            assert(PciBus::spec_from_channel(bus.spec_channel()) == Some(bus));
        },
    }
}

} // verus!
