//! Channels on ISA hardware.

use vstd::prelude::*;

use crate::bus::{Bus, ToHandle};
use crate::pcan::{ PCAN_ISABUS1, PCAN_ISABUS2, PCAN_ISABUS3, PCAN_ISABUS4, PCAN_ISABUS5,
    PCAN_ISABUS6, PCAN_ISABUS7, PCAN_ISABUS8};

verus! {

/// The channels the driver assigns to ISA hardware.
#[derive(Debug, Clone, Copy, PartialEq, Eq, Structural)]
pub enum IsaBus {
    ISA1,
    ISA2,
    ISA3,
    ISA4,
    ISA5,
    ISA6,
    ISA7,
    ISA8,
}

impl IsaBus {
    /// The bus a channel handle names, if it names one of this kind.
    pub open spec fn spec_from_channel(value: u16) -> Option<IsaBus> {
        if value == PCAN_ISABUS1 {
            Some(IsaBus::ISA1)
        } else if value == PCAN_ISABUS2 {
            Some(IsaBus::ISA2)
        } else if value == PCAN_ISABUS3 {
            Some(IsaBus::ISA3)
        } else if value == PCAN_ISABUS4 {
            Some(IsaBus::ISA4)
        } else if value == PCAN_ISABUS5 {
            Some(IsaBus::ISA5)
        } else if value == PCAN_ISABUS6 {
            Some(IsaBus::ISA6)
        } else if value == PCAN_ISABUS7 {
            Some(IsaBus::ISA7)
        } else if value == PCAN_ISABUS8 {
            Some(IsaBus::ISA8)
        } else {
            None
        }
    }

    /// Maps a channel handle back to the bus it names; rejects every handle
    /// of another kind.
    pub fn try_from(value: u16) -> (r: Result<IsaBus, ()>)
        ensures
            match r {
                Ok(bus) => Self::spec_from_channel(value) == Some(bus),
                Err(()) => Self::spec_from_channel(value) is None,
            },
    {
        if value == PCAN_ISABUS1 {
            Ok(IsaBus::ISA1)
        } else if value == PCAN_ISABUS2 {
            Ok(IsaBus::ISA2)
        } else if value == PCAN_ISABUS3 {
            Ok(IsaBus::ISA3)
        } else if value == PCAN_ISABUS4 {
            Ok(IsaBus::ISA4)
        } else if value == PCAN_ISABUS5 {
            Ok(IsaBus::ISA5)
        } else if value == PCAN_ISABUS6 {
            Ok(IsaBus::ISA6)
        } else if value == PCAN_ISABUS7 {
            Ok(IsaBus::ISA7)
        } else if value == PCAN_ISABUS8 {
            Ok(IsaBus::ISA8)
        } else {
            Err(())
        }
    }
}

impl Bus for IsaBus {
    open spec fn spec_channel(&self) -> u16 {
        match *self {
            IsaBus::ISA1 => PCAN_ISABUS1,
            IsaBus::ISA2 => PCAN_ISABUS2,
            IsaBus::ISA3 => PCAN_ISABUS3,
            IsaBus::ISA4 => PCAN_ISABUS4,
            IsaBus::ISA5 => PCAN_ISABUS5,
            IsaBus::ISA6 => PCAN_ISABUS6,
            IsaBus::ISA7 => PCAN_ISABUS7,
            IsaBus::ISA8 => PCAN_ISABUS8,
        }
    }

    fn channel(&self) -> u16 {
        match *self {
            IsaBus::ISA1 => PCAN_ISABUS1,
            IsaBus::ISA2 => PCAN_ISABUS2,
            IsaBus::ISA3 => PCAN_ISABUS3,
            IsaBus::ISA4 => PCAN_ISABUS4,
            IsaBus::ISA5 => PCAN_ISABUS5,
            IsaBus::ISA6 => PCAN_ISABUS6,
            IsaBus::ISA7 => PCAN_ISABUS7,
            IsaBus::ISA8 => PCAN_ISABUS8,
        }
    }
}

impl ToHandle for IsaBus {
    open spec fn spec_handle(&self) -> u16 {
        self.spec_channel()
    }

    fn handle(&self) -> u16 {
        self.channel()
    }
}

/// A bus turned into its channel handle is the bus that handle names.
pub proof fn lemma_channel_round_trip(bus: IsaBus)
    ensures
        IsaBus::spec_from_channel(bus.spec_channel()) == Some(bus),
{
    match bus {
        IsaBus::ISA1 => {
            assert(IsaBus::spec_from_channel(bus.spec_channel()) == Some(bus));
        },
        IsaBus::ISA2 => {
            assert(IsaBus::spec_from_channel(bus.spec_channel()) == Some(bus));
        },
        IsaBus::ISA3 => {
            assert(IsaBus::spec_from_channel(bus.spec_channel()) == Some(bus));
        },
        IsaBus::ISA4 => {
            assert(IsaBus::spec_from_channel(bus.spec_channel()) == Some(bus));
        },
        IsaBus::ISA5 => {
            assert(IsaBus::spec_from_channel(bus.spec_channel()) == Some(bus));
        },
        IsaBus::ISA6 => {
            assert(IsaBus::spec_from_channel(bus.spec_channel()) == Some(bus));
        },
        IsaBus::ISA7 => {
            assert(IsaBus::spec_from_channel(bus.spec_channel()) == Some(bus));
        },
        IsaBus::ISA8 => {
            assert(IsaBus::spec_from_channel(bus.spec_channel()) == Some(bus));
        },
    }
}

} // verus!
