//! The digital I/O pins of channels that have them.
//!
//! A pin configuration and a pin value are both one bit in a 32-bit word;
//! reading a pin tests its bit, and writing a pin rewrites the whole word.

use vstd::prelude::*;

use crate::error::PcanError;
use crate::param::{spec_status, spec_u32_le, status_result, u32_from_le_bytes};

verus! {

/// How a digital pin is configured.
#[derive(Debug, Clone, Copy, PartialEq, Eq, Structural)]
pub enum IOConfig {
    /// The pin only reads.
    In,
    /// The pin reads and drives.
    InOut,
}

impl IOConfig {
    /// The numeric value the driver uses for this configuration.
    pub open spec fn spec_code(self) -> u32 {
        match self {
            IOConfig::In => 0,
            IOConfig::InOut => 1,
        }
    }

    /// The configuration a value names, if it names one.
    pub open spec fn spec_from_code(value: u32) -> Option<IOConfig> {
        if value == 0 {
            Some(IOConfig::In)
        } else if value == 1 {
            Some(IOConfig::InOut)
        } else {
            None
        }
    }

    /// Returns the numeric value the driver uses for this configuration.
    pub fn code(self) -> (r: u32)
        ensures
            r == self.spec_code(),
    {
        match self {
            IOConfig::In => 0,
            IOConfig::InOut => 1,
        }
    }

    /// Maps a value to the configuration it names; rejects every other
    /// value.
    pub fn try_from(value: u32) -> (r: Result<IOConfig, ()>)
        ensures
            match r {
                Ok(c) => Self::spec_from_code(value) == Some(c),
                Err(()) => Self::spec_from_code(value) is None,
            },
    {
        if value == 0 {
            Ok(IOConfig::In)
        } else if value == 1 {
            Ok(IOConfig::InOut)
        } else {
            Err(())
        }
    }
}

/// What a digital pin carries.
#[derive(Debug, Clone, Copy, PartialEq, Eq, Structural)]
pub enum IOValue {
    Low,
    High,
}

impl IOValue {
    /// The numeric value the driver uses for this level.
    pub open spec fn spec_code(self) -> u32 {
        match self {
            IOValue::Low => 0,
            IOValue::High => 1,
        }
    }

    /// The level a value names, if it names one.
    pub open spec fn spec_from_code(value: u32) -> Option<IOValue> {
        if value == 0 {
            Some(IOValue::Low)
        } else if value == 1 {
            Some(IOValue::High)
        } else {
            None
        }
    }

    /// Returns the numeric value the driver uses for this level.
    pub fn code(self) -> (r: u32)
        ensures
            r == self.spec_code(),
    {
        match self {
            IOValue::Low => 0,
            IOValue::High => 1,
        }
    }

    /// Maps a value to the level it names; rejects every other value.
    pub fn try_from(value: u32) -> (r: Result<IOValue, ()>)
        ensures
            match r {
                Ok(v) => Self::spec_from_code(value) == Some(v),
                Err(()) => Self::spec_from_code(value) is None,
            },
    {
        if value == 0 {
            Ok(IOValue::Low)
        } else if value == 1 {
            Ok(IOValue::High)
        } else {
            Err(())
        }
    }
}

/// Decodes the outputs of a configuration get-call down to one pin: the
/// pin's bit in the word decides between read-only and read-write.
pub fn pin_mode_from_output(code: u32, data: &[u8; 4], pin: u8) -> (r: Result<IOConfig, PcanError>)
    requires
        pin < 32,
    ensures
        r == match spec_status(code) {
            Ok(()) => Ok::<IOConfig, PcanError>(
                if spec_u32_le(data@) & (1u32 << pin) == 0 {
                    IOConfig::In
                } else {
                    IOConfig::InOut
                },
            ),
            Err(e) => Err::<IOConfig, PcanError>(e),
        },
{
    let mode_word = u32_from_le_bytes(data);
    match status_result(code) {
        Ok(()) => {
            let pin_enabled = mode_word & (1u32 << pin);
            if pin_enabled == 0 {
                Ok(IOConfig::In)
            } else {
                Ok(IOConfig::InOut)
            }
        },
        Err(e) => Err(e),
    }
}

/// The configuration word to write back when one pin's mode changes: the
/// driver's word with the pin's bit set for read-write, or cleared for
/// read-only; every other pin keeps its bit.
pub fn updated_mode_word(mode_word: u32, pin: u8, mode: IOConfig) -> (r: u32)
    requires
        pin < 32,
    ensures
        r == match mode {
            IOConfig::In => mode_word & !(1u32 << pin),
            IOConfig::InOut => mode_word | (1u32 << pin),
        },
{
    match mode {
        IOConfig::In => mode_word & !(1u32 << pin),
        IOConfig::InOut => mode_word | (1u32 << pin),
    }
}

/// Decodes the outputs of a value get-call down to one pin: the pin's bit
/// in the word decides between low and high.
pub fn pin_value_from_output(code: u32, data: &[u8; 4], pin: u8) -> (r: Result<IOValue, PcanError>)
    requires
        pin < 32,
    ensures
        r == match spec_status(code) {
            Ok(()) => Ok::<IOValue, PcanError>(
                if spec_u32_le(data@) & (1u32 << pin) == 0 {
                    IOValue::Low
                } else {
                    IOValue::High
                },
            ),
            Err(e) => Err::<IOValue, PcanError>(e),
        },
{
    let value_word = u32_from_le_bytes(data);
    match status_result(code) {
        Ok(()) => {
            let pin_enabled = value_word & (1u32 << pin);
            if pin_enabled == 0 {
                Ok(IOValue::Low)
            } else {
                Ok(IOValue::High)
            }
        },
        Err(e) => Err(e),
    }
}

/// The value word to write back when one pin's level changes: the driver's
/// word with the pin's bit set for high, or cleared for low; every other
/// pin keeps its bit.
pub fn updated_value_word(value_word: u32, pin: u8, value: IOValue) -> (r: u32)
    requires
        pin < 32,
    ensures
        r == match value {
            IOValue::Low => value_word & !(1u32 << pin),
            IOValue::High => value_word | (1u32 << pin),
        },
{
    match value {
        IOValue::Low => value_word & !(1u32 << pin),
        IOValue::High => value_word | (1u32 << pin),
    }
}

/// Reading how the digital pins are configured.
pub trait DigitalConfiguration {
    /// Returns one pin's configuration.
    fn mode(&self, pin: u8) -> Result<IOConfig, PcanError>;

    /// Returns the whole configuration word.
    fn mode_word(&self) -> Result<u32, PcanError>;
}

/// Writing the configuration of the digital pins.
pub trait SetDigitalConfiguration {
    /// Rewrites one pin's configuration.
    fn set_mode(&self, pin: u8, mode: IOConfig) -> Result<(), PcanError>;

    /// Writes the whole configuration word.
    fn set_mode_word(&self, mode_word: u32) -> Result<(), PcanError>;
}

/// Reading what the digital pins carry.
pub trait DigitalValue {
    /// Returns one pin's level.
    fn value(&self, pin: u8) -> Result<IOValue, PcanError>;

    /// Returns the whole value word.
    fn value_word(&self) -> Result<u32, PcanError>;
}

/// Writing what the digital pins drive.
pub trait SetDigitalValue {
    /// Rewrites one pin's level.
    fn set_value(&self, pin: u8, value: IOValue) -> Result<(), PcanError>;

    /// Writes the whole value word.
    fn set_value_word(&self, value_word: u32) -> Result<(), PcanError>;
}

} // verus!
