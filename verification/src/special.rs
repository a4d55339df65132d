//! Special channel behaviours: supply power, recovery, silence and pacing.
//!
//! Each behaviour is one on-off or numeric parameter read and written
//! through the shared codec; the traits here name who has which.

use vstd::prelude::*;

use crate::error::PcanError;

verus! {

/// Reading whether the connector's five-volt supply is on.
pub trait FiveVoltsPower {
    /// Whether the supply is switched on.
    fn five_volts(&self) -> Result<bool, PcanError>;
}

/// Switching the connector's five-volt supply.
pub trait SetFiveVoltsPower {
    /// Switches the supply on or off.
    fn set_five_volts(&self, value: bool) -> Result<(), PcanError>;
}

/// Reading whether the controller resets itself after a bus-off.
pub trait BusOffAutoreset {
    /// Whether the automatic reset is switched on.
    fn bus_off_autoreset(&self) -> Result<bool, PcanError>;
}

/// Switching the automatic reset after a bus-off.
pub trait SetBusOffAutoreset {
    /// Switches the automatic reset on or off.
    fn set_bus_off_autoreset(&self, value: bool) -> Result<(), PcanError>;
}

/// Reading whether the channel only listens.
pub trait ListenOnly {
    /// Whether the channel is silent on the bus.
    fn listen_only(&self) -> Result<bool, PcanError>;
}

/// Switching the channel's silence.
pub trait SetListenOnly {
    /// Switches listen-only on or off.
    fn set_listen_only(&self, value: bool) -> Result<(), PcanError>;
}

/// Reading whether the channel adapts to the bus's bit rate.
pub trait BitrateAdapting {
    /// Whether the adapting is switched on.
    fn bitrate_adapting(&self) -> Result<bool, PcanError>;
}

/// Switching the adapting to the bus's bit rate.
pub trait SetBitrateAdapting {
    /// Switches the adapting on or off.
    fn set_bitrate_adapting(&self, value: bool) -> Result<(), PcanError>;
}

/// Reading the pause the channel keeps between transmissions.
pub trait InterframeDelay {
    /// Returns the pause in microseconds.
    fn interframe_delay(&self) -> Result<u32, PcanError>;
}

/// Writing the pause the channel keeps between transmissions.
pub trait SetInterframeDelay {
    /// Sets the pause in microseconds.
    fn set_interframe_delay(&self, value: u32) -> Result<(), PcanError>;
}

} // verus!
