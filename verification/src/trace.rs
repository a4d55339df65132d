//! Tracing of a channel's traffic into files.
//!
//! Tracing is configured per channel: where the files go, whether tracing
//! runs, how large a file may grow, and how the files are named and
//! rotated, the last as the [`TraceFile`] enum.

use vstd::prelude::*;

use crate::error::PcanError;
use crate::param::{spec_output, spec_status, spec_u32_le, status_result, u32_from_le_bytes};
use crate::pcan::{
    TRACE_FILE_DATE, TRACE_FILE_OVERWRITE, TRACE_FILE_SEGMENTED, TRACE_FILE_SINGLE,
    TRACE_FILE_TIME,
};

verus! {

/// How trace files are named and rotated.
#[derive(Debug, Clone, Copy, PartialEq, Eq, Structural)]
pub enum TraceFile {
    /// One file, stopped when full.
    Single,
    /// A numbered sequence of files.
    Segmented,
    /// The date in the file name.
    Date,
    /// The time in the file name.
    Time,
    /// An existing file is overwritten.
    Overwrite,
}

impl TraceFile {
    /// The numeric value the driver uses for this configuration.
    pub open spec fn spec_code(self) -> u32 {
        match self {
            TraceFile::Single => TRACE_FILE_SINGLE,
            TraceFile::Segmented => TRACE_FILE_SEGMENTED,
            TraceFile::Date => TRACE_FILE_DATE,
            TraceFile::Time => TRACE_FILE_TIME,
            TraceFile::Overwrite => TRACE_FILE_OVERWRITE,
        }
    }

    /// The configuration a value names, if it names one.
    pub open spec fn spec_from_code(value: u32) -> Option<TraceFile> {
        if value == TRACE_FILE_SINGLE {
            Some(TraceFile::Single)
        } else if value == TRACE_FILE_SEGMENTED {
            Some(TraceFile::Segmented)
        } else if value == TRACE_FILE_DATE {
            Some(TraceFile::Date)
        } else if value == TRACE_FILE_TIME {
            Some(TraceFile::Time)
        } else if value == TRACE_FILE_OVERWRITE {
            Some(TraceFile::Overwrite)
        } else {
            None
        }
    }

    /// Returns the numeric value the driver uses for this configuration.
    pub fn code(self) -> (r: u32)
        ensures
            r == self.spec_code(),
    {
        match self {
            TraceFile::Single => TRACE_FILE_SINGLE,
            TraceFile::Segmented => TRACE_FILE_SEGMENTED,
            TraceFile::Date => TRACE_FILE_DATE,
            TraceFile::Time => TRACE_FILE_TIME,
            TraceFile::Overwrite => TRACE_FILE_OVERWRITE,
        }
    }

    /// Maps a value to the configuration it names; rejects every other
    /// value.
    pub fn try_from(value: u32) -> (r: Result<TraceFile, ()>)
        ensures
            match r {
                Ok(t) => Self::spec_from_code(value) == Some(t),
                Err(()) => Self::spec_from_code(value) is None,
            },
    {
        if value == TRACE_FILE_SINGLE {
            Ok(TraceFile::Single)
        } else if value == TRACE_FILE_SEGMENTED {
            Ok(TraceFile::Segmented)
        } else if value == TRACE_FILE_DATE {
            Ok(TraceFile::Date)
        } else if value == TRACE_FILE_TIME {
            Ok(TraceFile::Time)
        } else if value == TRACE_FILE_OVERWRITE {
            Ok(TraceFile::Overwrite)
        } else {
            Err(())
        }
    }
}

/// Encoding a trace configuration and decoding the result returns the same
/// configuration.
pub proof fn lemma_trace_file_code_round_trip(t: TraceFile)
    ensures
        TraceFile::spec_from_code(t.spec_code()) == Some(t),
{
    match t {
        TraceFile::Single => {},
        TraceFile::Segmented => {},
        TraceFile::Date => {},
        TraceFile::Time => {},
        TraceFile::Overwrite => {},
    }
}

/// Decodes the outputs of a trace-size get-call: the size in megabytes is
/// the buffer's first byte.
pub fn trace_size_from_output(code: u32, data: &[u8; 4]) -> (r: Result<u8, PcanError>)
    ensures
        r == spec_output(code, data@[0]),
{
    match status_result(code) {
        Ok(()) => Ok(data[0]),
        Err(e) => Err(e),
    }
}

/// What the outputs of a trace-configuration get-call mean: the
/// configuration the buffer names, or the unknown error for a value that
/// names none.
pub open spec fn spec_trace_configuration(code: u32, data: Seq<u8>) -> Result<
    TraceFile,
    PcanError,
> {
    match spec_status(code) {
        Ok(()) => match TraceFile::spec_from_code(spec_u32_le(data)) {
            Some(t) => Ok(t),
            None => Err(PcanError::Unknown),
        },
        Err(e) => Err(e),
    }
}

/// Decodes the outputs of a trace-configuration get-call.
pub fn trace_configuration_from_output(code: u32, data: &[u8; 4]) -> (r: Result<
    TraceFile,
    PcanError,
>)
    ensures
        r == spec_trace_configuration(code, data@),
{
    let value = u32_from_le_bytes(data);
    match status_result(code) {
        Ok(()) => match TraceFile::try_from(value) {
            Ok(config) => Ok(config),
            Err(()) => Err(PcanError::Unknown),
        },
        Err(e) => Err(e),
    }
}

/// Reading where a channel's trace files go.
pub trait TraceLocation {
    /// Returns the directory the trace files are written to.
    fn trace_location(&self) -> Result<String, PcanError>;
}

/// Writing where a channel's trace files go.
pub trait SetTraceLocation {
    /// Sets the directory the trace files are written to.
    fn set_trace_location(&self, path: &str) -> Result<(), PcanError>;
}

/// Points a channel's trace files back at the driver's own directory.
pub fn set_default_trace_location<T: SetTraceLocation>(value: &T) -> Result<(), PcanError> {
    value.set_trace_location(" ")
}

/// Reading whether a channel is tracing.
pub trait TraceStatus {
    /// Whether tracing is switched on.
    fn is_tracing(&self) -> Result<bool, PcanError>;
}

/// Switching a channel's tracing.
pub trait SetTraceStatus {
    /// Switches tracing on or off.
    fn set_tracing(&self, enable: bool) -> Result<(), PcanError>;
}

/// Reading how large a trace file may grow.
pub trait TraceSize {
    /// Returns the size bound in megabytes.
    fn trace_size(&self) -> Result<u8, PcanError>;
}

/// Writing how large a trace file may grow.
pub trait SetTraceSize {
    /// Sets the size bound in megabytes.
    fn set_trace_size(&self, size_mb: u8) -> Result<(), PcanError>;
}

/// Lifts a channel's trace-size bound.
pub fn set_default_trace_size<T: SetTraceSize>(value: &T) -> Result<(), PcanError> {
    value.set_trace_size(0)
}

/// Reading how trace files are named and rotated.
pub trait TraceConfigure {
    /// Returns the trace-file configuration.
    fn trace_configuration(&self) -> Result<TraceFile, PcanError>;
}

/// Writing how trace files are named and rotated.
pub trait SetTraceConfigure {
    /// Sets the trace-file configuration.
    fn configure_trace(&self, config: TraceFile) -> Result<(), PcanError>;
}

} // verus!
