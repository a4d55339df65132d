//! The driver-wide log: where it goes, whether it runs, and what it
//! records.
//!
//! Logging belongs to the driver as a whole, so its parameters are read and
//! written on the channel-less handle.  What the library contributes is the
//! mapping between [`LogFunction`] and the driver's numeric codes, and the
//! decoding of the parameter buffers.

use vstd::prelude::*;

use crate::error::PcanError;
use crate::param::{spec_status, spec_u32_le, status_result, u32_from_le_bytes};
use crate::pcan::{
    LOG_FUNCTION_DEFAULT, LOG_FUNCTION_ENTRY, LOG_FUNCTION_LEAVE, LOG_FUNCTION_PARAMETERS,
    LOG_FUNCTION_READ, LOG_FUNCTION_WRITE,
};

verus! {

/// What the driver writes into its log file.
#[derive(Debug, Clone, Copy, PartialEq, Eq, Structural)]
pub enum LogFunction {
    /// This value is always active.
    Default,
    /// Logs when a function is entered.
    Entry,
    /// Logs the parameters passed to a function.
    Parameters,
    /// Logs when a function is left, and its return value.
    Leave,
    /// Logs the parameters and CAN data passed to the write function.
    Write,
    /// Logs the parameters and CAN data received through the read function.
    Read,
}

impl LogFunction {
    /// The numeric value the driver uses for this log function.
    pub open spec fn spec_code(self) -> u32 {
        match self {
            LogFunction::Default => LOG_FUNCTION_DEFAULT,
            LogFunction::Entry => LOG_FUNCTION_ENTRY,
            LogFunction::Parameters => LOG_FUNCTION_PARAMETERS,
            LogFunction::Leave => LOG_FUNCTION_LEAVE,
            LogFunction::Write => LOG_FUNCTION_WRITE,
            LogFunction::Read => LOG_FUNCTION_READ,
        }
    }

    /// The log function a value names, if it names one.
    pub open spec fn spec_from_code(value: u32) -> Option<LogFunction> {
        if value == LOG_FUNCTION_DEFAULT {
            Some(LogFunction::Default)
        } else if value == LOG_FUNCTION_ENTRY {
            Some(LogFunction::Entry)
        } else if value == LOG_FUNCTION_PARAMETERS {
            Some(LogFunction::Parameters)
        } else if value == LOG_FUNCTION_LEAVE {
            Some(LogFunction::Leave)
        } else if value == LOG_FUNCTION_WRITE {
            Some(LogFunction::Write)
        } else if value == LOG_FUNCTION_READ {
            Some(LogFunction::Read)
        } else {
            None
        }
    }

    /// Returns the numeric value the driver uses for this log function.
    pub fn code(self) -> (r: u32)
        ensures
            r == self.spec_code(),
    {
        match self {
            LogFunction::Default => LOG_FUNCTION_DEFAULT,
            LogFunction::Entry => LOG_FUNCTION_ENTRY,
            LogFunction::Parameters => LOG_FUNCTION_PARAMETERS,
            LogFunction::Leave => LOG_FUNCTION_LEAVE,
            LogFunction::Write => LOG_FUNCTION_WRITE,
            LogFunction::Read => LOG_FUNCTION_READ,
        }
    }

    /// Maps a value to the log function it names; rejects every other
    /// value.
    pub fn try_from(value: u32) -> (r: Result<LogFunction, ()>)
        ensures
            match r {
                Ok(f) => Self::spec_from_code(value) == Some(f),
                Err(()) => Self::spec_from_code(value) is None,
            },
    {
        if value == LOG_FUNCTION_DEFAULT {
            Ok(LogFunction::Default)
        } else if value == LOG_FUNCTION_ENTRY {
            Ok(LogFunction::Entry)
        } else if value == LOG_FUNCTION_PARAMETERS {
            Ok(LogFunction::Parameters)
        } else if value == LOG_FUNCTION_LEAVE {
            Ok(LogFunction::Leave)
        } else if value == LOG_FUNCTION_WRITE {
            Ok(LogFunction::Write)
        } else if value == LOG_FUNCTION_READ {
            Ok(LogFunction::Read)
        } else {
            Err(())
        }
    }
}

/// Encoding a log function and decoding the result returns the same log
/// function.
pub proof fn lemma_log_function_code_round_trip(f: LogFunction)
    ensures
        LogFunction::spec_from_code(f.spec_code()) == Some(f),
{
    match f {
        LogFunction::Default => {},
        LogFunction::Entry => {},
        LogFunction::Parameters => {},
        LogFunction::Leave => {},
        LogFunction::Write => {},
        LogFunction::Read => {},
    }
}

/// What the outputs of a log-configuration get-call mean: the log function
/// the buffer names, or the unknown error for a value that names none.
pub open spec fn spec_log_configuration(code: u32, data: Seq<u8>) -> Result<
    LogFunction,
    PcanError,
> {
    match spec_status(code) {
        Ok(()) => match LogFunction::spec_from_code(spec_u32_le(data)) {
            Some(f) => Ok(f),
            None => Err(PcanError::Unknown),
        },
        Err(e) => Err(e),
    }
}

/// Decodes the outputs of a log-configuration get-call.
pub fn log_configuration_from_output(code: u32, data: &[u8; 4]) -> (r: Result<
    LogFunction,
    PcanError,
>)
    ensures
        r == spec_log_configuration(code, data@),
{
    let value = u32_from_le_bytes(data);
    match status_result(code) {
        Ok(()) => match LogFunction::try_from(value) {
            Ok(log_config) => Ok(log_config),
            Err(()) => Err(PcanError::Unknown),
        },
        Err(e) => Err(e),
    }
}

} // verus!
