//! Hardware identification: what a channel is, and how to find it on the
//! desk.
//!
//! Every property here is one parameter read or written through the shared
//! codec; the one decoding of its own is the channel condition, whose
//! numeric answer becomes a four-state enum.

use vstd::prelude::*;

use crate::error::PcanError;
use crate::param::{spec_status, spec_u32_le, status_result, u32_from_le_bytes};
use crate::pcan::{
    PCAN_CHANNEL_AVAILABLE, PCAN_CHANNEL_OCCUPIED, PCAN_CHANNEL_PCANVIEW,
    PCAN_CHANNEL_UNAVAILABLE,
};

verus! {

/// What the driver says about a channel before it is opened.
#[derive(Debug, Clone, Copy, PartialEq, Eq, Structural)]
pub enum ChannelConditionStatus {
    /// The channel's hardware is absent, or the channel is taken by
    /// another party.
    Unavailable,
    /// The channel can be opened.
    Available,
    /// The channel is already open.
    Occupied,
    /// The channel is open, but only for reading.
    PcanView,
}

impl ChannelConditionStatus {
    /// The numeric value the driver uses for this condition.
    pub open spec fn spec_code(self) -> u32 {
        match self {
            ChannelConditionStatus::Unavailable => PCAN_CHANNEL_UNAVAILABLE,
            ChannelConditionStatus::Available => PCAN_CHANNEL_AVAILABLE,
            ChannelConditionStatus::Occupied => PCAN_CHANNEL_OCCUPIED,
            ChannelConditionStatus::PcanView => PCAN_CHANNEL_PCANVIEW,
        }
    }

    /// The condition a value names, if it names one.
    pub open spec fn spec_from_code(value: u32) -> Option<ChannelConditionStatus> {
        if value == PCAN_CHANNEL_AVAILABLE {
            Some(ChannelConditionStatus::Available)
        } else if value == PCAN_CHANNEL_UNAVAILABLE {
            Some(ChannelConditionStatus::Unavailable)
        } else if value == PCAN_CHANNEL_OCCUPIED {
            Some(ChannelConditionStatus::Occupied)
        } else if value == PCAN_CHANNEL_PCANVIEW {
            Some(ChannelConditionStatus::PcanView)
        } else {
            None
        }
    }

    /// Returns the numeric value the driver uses for this condition.
    pub fn code(self) -> (r: u32)
        ensures
            r == self.spec_code(),
    {
        match self {
            ChannelConditionStatus::Unavailable => PCAN_CHANNEL_UNAVAILABLE,
            ChannelConditionStatus::Available => PCAN_CHANNEL_AVAILABLE,
            ChannelConditionStatus::Occupied => PCAN_CHANNEL_OCCUPIED,
            ChannelConditionStatus::PcanView => PCAN_CHANNEL_PCANVIEW,
        }
    }

    /// Maps a value to the condition it names; rejects every other value.
    pub fn try_from(value: u32) -> (r: Result<ChannelConditionStatus, ()>)
        ensures
            match r {
                Ok(c) => Self::spec_from_code(value) == Some(c),
                Err(()) => Self::spec_from_code(value) is None,
            },
    {
        if value == PCAN_CHANNEL_AVAILABLE {
            Ok(ChannelConditionStatus::Available)
        } else if value == PCAN_CHANNEL_UNAVAILABLE {
            Ok(ChannelConditionStatus::Unavailable)
        } else if value == PCAN_CHANNEL_OCCUPIED {
            Ok(ChannelConditionStatus::Occupied)
        } else if value == PCAN_CHANNEL_PCANVIEW {
            Ok(ChannelConditionStatus::PcanView)
        } else {
            Err(())
        }
    }
}

/// Encoding a condition and decoding the result returns the same
/// condition.
pub proof fn lemma_condition_code_round_trip(c: ChannelConditionStatus)
    ensures
        ChannelConditionStatus::spec_from_code(c.spec_code()) == Some(c),
{
    match c {
        ChannelConditionStatus::Unavailable => {},
        ChannelConditionStatus::Available => {},
        ChannelConditionStatus::Occupied => {},
        ChannelConditionStatus::PcanView => {},
    }
}

/// What the outputs of a channel-condition get-call mean: the condition
/// the buffer names, or the unknown error for a value that names none.
pub open spec fn spec_channel_condition(code: u32, data: Seq<u8>) -> Result<
    ChannelConditionStatus,
    PcanError,
> {
    match spec_status(code) {
        Ok(()) => match ChannelConditionStatus::spec_from_code(spec_u32_le(data)) {
            Some(c) => Ok(c),
            None => Err(PcanError::Unknown),
        },
        Err(e) => Err(e),
    }
}

/// Decodes the outputs of a channel-condition get-call.
pub fn channel_condition_from_output(code: u32, data: &[u8; 4]) -> (r: Result<
    ChannelConditionStatus,
    PcanError,
>)
    ensures
        r == spec_channel_condition(code, data@),
{
    let value = u32_from_le_bytes(data);
    match status_result(code) {
        Ok(()) => match ChannelConditionStatus::try_from(value) {
            Ok(status) => Ok(status),
            Err(()) => Err(PcanError::Unknown),
        },
        Err(e) => Err(e),
    }
}

/// Reading whether a channel can be opened.
pub trait ChannelCondition {
    /// Returns the channel's condition.
    fn channel_condition(&self) -> Result<ChannelConditionStatus, PcanError>;
}

/// Blinking a channel's light to point the hardware out.
pub trait ChannelIdentifying {
    /// Starts the blinking.
    fn enable_identifying(&self) -> Result<(), PcanError>;

    /// Stops the blinking.
    fn disable_identifying(&self) -> Result<(), PcanError>;

    /// Starts or stops the blinking, as `value` says.
    fn identifying(&self, value: bool) -> Result<(), PcanError> {
        match value {
            false => self.disable_identifying(),
            true => self.enable_identifying(),
        }
    }

    /// Starts or stops the blinking, as `value` says.
    fn set_channel_identifying(&self, value: bool) -> Result<(), PcanError>;

    /// Whether the light is blinking.
    fn is_channel_identifying(&self) -> Result<bool, PcanError>;
}

/// Reading the device identifier burnt into the hardware.
pub trait DeviceId {
    /// Returns the device identifier.
    fn device_id(&self) -> Result<u32, PcanError>;
}

/// Writing the device identifier.
pub trait SetDeviceId {
    /// What the identifier is written as.
    type Item;

    /// Writes the device identifier.
    fn set_device_id(&self, value: Self::Item) -> Result<(), PcanError>;
}

/// Reading the hardware's name.
pub trait HardwareName {
    /// Returns the hardware's name.
    fn hardware_name(&self) -> Result<String, PcanError>;
}

/// Reading which controller of the hardware the channel is.
pub trait ControllerNumber {
    /// Returns the controller number.
    fn controller_number(&self) -> Result<u32, PcanError>;
}

/// Writing the controller number.
pub trait SetControllerNumber {
    /// What the number is written as.
    type Item;

    /// Writes the controller number.
    fn set_controller_number(&self, value: Self::Item) -> Result<(), PcanError>;
}

/// Reading the hardware's order number.
pub trait DevicePartNumber {
    /// Returns the part number.
    fn device_part_number(&self) -> Result<String, PcanError>;
}

} // verus!
