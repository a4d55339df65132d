//! The driver's return codes as a typed error enum.
//!
//! Every native call answers with a 32-bit status word.  `PcanError` names
//! each documented error value, `PcanOkError` adds the success value, and
//! the conversions here map between the enum and the numeric code exactly.

use vstd::prelude::*;

use crate::pcan::{
    PCAN_ERROR_OK, PCAN_ERROR_XMTFULL, PCAN_ERROR_OVERRUN, PCAN_ERROR_BUSLIGHT,
    PCAN_ERROR_BUSHEAVY, PCAN_ERROR_BUSPASSIVE, PCAN_ERROR_BUSOFF, PCAN_ERROR_ANYBUSERR,
    PCAN_ERROR_QRCVEMPTY, PCAN_ERROR_QOVERRUN, PCAN_ERROR_QXMTFULL, PCAN_ERROR_REGTEST,
    PCAN_ERROR_NODRIVER, PCAN_ERROR_HWINUSE, PCAN_ERROR_NETINUSE, PCAN_ERROR_ILLHW,
    PCAN_ERROR_ILLNET, PCAN_ERROR_ILLCLIENT, PCAN_ERROR_RESOURCE, PCAN_ERROR_ILLPARAMTYPE,
    PCAN_ERROR_ILLPARAMVAL, PCAN_ERROR_UNKNOWN, PCAN_ERROR_ILLDATA, PCAN_ERROR_ILLMODE,
    PCAN_ERROR_CAUTION, PCAN_ERROR_INITIALIZE, PCAN_ERROR_ILLOPERATION,
};

verus! {

/// One variant for each error value the driver can return.
#[derive(Debug, Clone, Copy, PartialEq, Eq, Structural)]
pub enum PcanError {
    XmtFull,
    Overrun,
    BusLight,
    BusHeavy,
    BusPassive,
    BusOff,
    AnyBusErr,
    QrcvEmpty,
    QOverrun,
    QxmtFull,
    RegTest,
    NoDriver,
    HwInUse,
    NetInUse,
    IllHw,
    IllNet,
    IllClient,
    Resource,
    IllParamType,
    IllParamVal,
    Unknown,
    IllData,
    IllMode,
    Caution,
    Initialize,
    IllOperation,
}

/// A return code read back from the driver: success, or one of its errors.
#[derive(Debug, Clone, Copy, PartialEq, Eq, Structural)]
pub enum PcanOkError {
    Success,
    Error(PcanError),
}

impl PcanError {
    /// The numeric value the driver uses for this error.
    pub open spec fn spec_code(self) -> u32 {
        match self {
            PcanError::XmtFull => PCAN_ERROR_XMTFULL,
            PcanError::Overrun => PCAN_ERROR_OVERRUN,
            PcanError::BusLight => PCAN_ERROR_BUSLIGHT,
            PcanError::BusHeavy => PCAN_ERROR_BUSHEAVY,
            PcanError::BusPassive => PCAN_ERROR_BUSPASSIVE,
            PcanError::BusOff => PCAN_ERROR_BUSOFF,
            PcanError::AnyBusErr => PCAN_ERROR_ANYBUSERR,
            PcanError::QrcvEmpty => PCAN_ERROR_QRCVEMPTY,
            PcanError::QOverrun => PCAN_ERROR_QOVERRUN,
            PcanError::QxmtFull => PCAN_ERROR_QXMTFULL,
            PcanError::RegTest => PCAN_ERROR_REGTEST,
            PcanError::NoDriver => PCAN_ERROR_NODRIVER,
            PcanError::HwInUse => PCAN_ERROR_HWINUSE,
            PcanError::NetInUse => PCAN_ERROR_NETINUSE,
            PcanError::IllHw => PCAN_ERROR_ILLHW,
            PcanError::IllNet => PCAN_ERROR_ILLNET,
            PcanError::IllClient => PCAN_ERROR_ILLCLIENT,
            PcanError::Resource => PCAN_ERROR_RESOURCE,
            PcanError::IllParamType => PCAN_ERROR_ILLPARAMTYPE,
            PcanError::IllParamVal => PCAN_ERROR_ILLPARAMVAL,
            PcanError::Unknown => PCAN_ERROR_UNKNOWN,
            PcanError::IllData => PCAN_ERROR_ILLDATA,
            PcanError::IllMode => PCAN_ERROR_ILLMODE,
            PcanError::Caution => PCAN_ERROR_CAUTION,
            PcanError::Initialize => PCAN_ERROR_INITIALIZE,
            PcanError::IllOperation => PCAN_ERROR_ILLOPERATION,
        }
    }

    /// The error named by a return code, if the code names one.
    pub open spec fn spec_from_code(value: u32) -> Option<PcanError> {
        if value == PCAN_ERROR_XMTFULL {
            Some(PcanError::XmtFull)
        } else if value == PCAN_ERROR_OVERRUN {
            Some(PcanError::Overrun)
        } else if value == PCAN_ERROR_BUSLIGHT {
            Some(PcanError::BusLight)
        } else if value == PCAN_ERROR_BUSHEAVY {
            Some(PcanError::BusHeavy)
        } else if value == PCAN_ERROR_BUSPASSIVE {
            Some(PcanError::BusPassive)
        } else if value == PCAN_ERROR_BUSOFF {
            Some(PcanError::BusOff)
        } else if value == PCAN_ERROR_ANYBUSERR {
            Some(PcanError::AnyBusErr)
        } else if value == PCAN_ERROR_QRCVEMPTY {
            Some(PcanError::QrcvEmpty)
        } else if value == PCAN_ERROR_QOVERRUN {
            Some(PcanError::QOverrun)
        } else if value == PCAN_ERROR_QXMTFULL {
            Some(PcanError::QxmtFull)
        } else if value == PCAN_ERROR_REGTEST {
            Some(PcanError::RegTest)
        } else if value == PCAN_ERROR_NODRIVER {
            Some(PcanError::NoDriver)
        } else if value == PCAN_ERROR_HWINUSE {
            Some(PcanError::HwInUse)
        } else if value == PCAN_ERROR_NETINUSE {
            Some(PcanError::NetInUse)
        } else if value == PCAN_ERROR_ILLHW {
            Some(PcanError::IllHw)
        } else if value == PCAN_ERROR_ILLNET {
            Some(PcanError::IllNet)
        } else if value == PCAN_ERROR_ILLCLIENT {
            Some(PcanError::IllClient)
        } else if value == PCAN_ERROR_RESOURCE {
            Some(PcanError::Resource)
        } else if value == PCAN_ERROR_ILLPARAMTYPE {
            Some(PcanError::IllParamType)
        } else if value == PCAN_ERROR_ILLPARAMVAL {
            Some(PcanError::IllParamVal)
        } else if value == PCAN_ERROR_UNKNOWN {
            Some(PcanError::Unknown)
        } else if value == PCAN_ERROR_ILLDATA {
            Some(PcanError::IllData)
        } else if value == PCAN_ERROR_ILLMODE {
            Some(PcanError::IllMode)
        } else if value == PCAN_ERROR_CAUTION {
            Some(PcanError::Caution)
        } else if value == PCAN_ERROR_INITIALIZE {
            Some(PcanError::Initialize)
        } else if value == PCAN_ERROR_ILLOPERATION {
            Some(PcanError::IllOperation)
        } else {
            None
        }
    }

    /// Returns the numeric value the driver uses for this error.
    pub fn code(self) -> (r: u32)
        ensures
            r == self.spec_code(),
    {
        match self {
            PcanError::XmtFull => PCAN_ERROR_XMTFULL,
            PcanError::Overrun => PCAN_ERROR_OVERRUN,
            PcanError::BusLight => PCAN_ERROR_BUSLIGHT,
            PcanError::BusHeavy => PCAN_ERROR_BUSHEAVY,
            PcanError::BusPassive => PCAN_ERROR_BUSPASSIVE,
            PcanError::BusOff => PCAN_ERROR_BUSOFF,
            PcanError::AnyBusErr => PCAN_ERROR_ANYBUSERR,
            PcanError::QrcvEmpty => PCAN_ERROR_QRCVEMPTY,
            PcanError::QOverrun => PCAN_ERROR_QOVERRUN,
            PcanError::QxmtFull => PCAN_ERROR_QXMTFULL,
            PcanError::RegTest => PCAN_ERROR_REGTEST,
            PcanError::NoDriver => PCAN_ERROR_NODRIVER,
            PcanError::HwInUse => PCAN_ERROR_HWINUSE,
            PcanError::NetInUse => PCAN_ERROR_NETINUSE,
            PcanError::IllHw => PCAN_ERROR_ILLHW,
            PcanError::IllNet => PCAN_ERROR_ILLNET,
            PcanError::IllClient => PCAN_ERROR_ILLCLIENT,
            PcanError::Resource => PCAN_ERROR_RESOURCE,
            PcanError::IllParamType => PCAN_ERROR_ILLPARAMTYPE,
            PcanError::IllParamVal => PCAN_ERROR_ILLPARAMVAL,
            PcanError::Unknown => PCAN_ERROR_UNKNOWN,
            PcanError::IllData => PCAN_ERROR_ILLDATA,
            PcanError::IllMode => PCAN_ERROR_ILLMODE,
            PcanError::Caution => PCAN_ERROR_CAUTION,
            PcanError::Initialize => PCAN_ERROR_INITIALIZE,
            PcanError::IllOperation => PCAN_ERROR_ILLOPERATION,
        }
    }

    /// Maps a return code to the error it names; rejects every other value,
    /// the success code among them.
    pub fn try_from(value: u32) -> (r: Result<PcanError, ()>)
        ensures
            match r {
                Ok(e) => Self::spec_from_code(value) == Some(e),
                Err(()) => Self::spec_from_code(value) is None,
            },
    {
        if value == PCAN_ERROR_XMTFULL {
            Ok(PcanError::XmtFull)
        } else if value == PCAN_ERROR_OVERRUN {
            Ok(PcanError::Overrun)
        } else if value == PCAN_ERROR_BUSLIGHT {
            Ok(PcanError::BusLight)
        } else if value == PCAN_ERROR_BUSHEAVY {
            Ok(PcanError::BusHeavy)
        } else if value == PCAN_ERROR_BUSPASSIVE {
            Ok(PcanError::BusPassive)
        } else if value == PCAN_ERROR_BUSOFF {
            Ok(PcanError::BusOff)
        } else if value == PCAN_ERROR_ANYBUSERR {
            Ok(PcanError::AnyBusErr)
        } else if value == PCAN_ERROR_QRCVEMPTY {
            Ok(PcanError::QrcvEmpty)
        } else if value == PCAN_ERROR_QOVERRUN {
            Ok(PcanError::QOverrun)
        } else if value == PCAN_ERROR_QXMTFULL {
            Ok(PcanError::QxmtFull)
        } else if value == PCAN_ERROR_REGTEST {
            Ok(PcanError::RegTest)
        } else if value == PCAN_ERROR_NODRIVER {
            Ok(PcanError::NoDriver)
        } else if value == PCAN_ERROR_HWINUSE {
            Ok(PcanError::HwInUse)
        } else if value == PCAN_ERROR_NETINUSE {
            Ok(PcanError::NetInUse)
        } else if value == PCAN_ERROR_ILLHW {
            Ok(PcanError::IllHw)
        } else if value == PCAN_ERROR_ILLNET {
            Ok(PcanError::IllNet)
        } else if value == PCAN_ERROR_ILLCLIENT {
            Ok(PcanError::IllClient)
        } else if value == PCAN_ERROR_RESOURCE {
            Ok(PcanError::Resource)
        } else if value == PCAN_ERROR_ILLPARAMTYPE {
            Ok(PcanError::IllParamType)
        } else if value == PCAN_ERROR_ILLPARAMVAL {
            Ok(PcanError::IllParamVal)
        } else if value == PCAN_ERROR_UNKNOWN {
            Ok(PcanError::Unknown)
        } else if value == PCAN_ERROR_ILLDATA {
            Ok(PcanError::IllData)
        } else if value == PCAN_ERROR_ILLMODE {
            Ok(PcanError::IllMode)
        } else if value == PCAN_ERROR_CAUTION {
            Ok(PcanError::Caution)
        } else if value == PCAN_ERROR_INITIALIZE {
            Ok(PcanError::Initialize)
        } else if value == PCAN_ERROR_ILLOPERATION {
            Ok(PcanError::IllOperation)
        } else {
            Err(())
        }
    }
}

impl PcanOkError {
    /// The numeric value the driver uses for this return code.
    pub open spec fn spec_code(self) -> u32 {
        match self {
            PcanOkError::Success => PCAN_ERROR_OK,
            PcanOkError::Error(error) => error.spec_code(),
        }
    }

    /// The return code a status word stands for, if it stands for one.
    pub open spec fn spec_from_code(value: u32) -> Option<PcanOkError> {
        if value == PCAN_ERROR_OK {
            Some(PcanOkError::Success)
        } else {
            match PcanError::spec_from_code(value) {
                Some(e) => Some(PcanOkError::Error(e)),
                None => None,
            }
        }
    }

    /// Returns the numeric value the driver uses for this return code.
    pub fn code(self) -> (r: u32)
        ensures
            r == self.spec_code(),
    {
        match self {
            PcanOkError::Success => PCAN_ERROR_OK,
            PcanOkError::Error(error) => error.code(),
        }
    }

    /// Maps a status word to success or the error it names; rejects every
    /// value the driver does not document.
    pub fn try_from(value: u32) -> (r: Result<PcanOkError, ()>)
        ensures
            match r {
                Ok(s) => Self::spec_from_code(value) == Some(s),
                Err(()) => Self::spec_from_code(value) is None,
            },
    {
        if value == PCAN_ERROR_OK {
            Ok(PcanOkError::Success)
        } else {
            match PcanError::try_from(value) {
                Ok(err) => Ok(PcanOkError::Error(err)),
                Err(()) => Err(()),
            }
        }
    }
}

/// Encoding an error and decoding the result returns the same error: the
/// numeric codes of the variants are distinct, so nothing is conflated.
pub proof fn lemma_error_code_round_trip(e: PcanError)
    ensures
        PcanError::spec_from_code(e.spec_code()) == Some(e),
{
    match e {
        PcanError::XmtFull => { assert(PcanError::spec_from_code(e.spec_code()) == Some(e)); },
        PcanError::Overrun => { assert(PcanError::spec_from_code(e.spec_code()) == Some(e)); },
        PcanError::BusLight => { assert(PcanError::spec_from_code(e.spec_code()) == Some(e)); },
        PcanError::BusHeavy => { assert(PcanError::spec_from_code(e.spec_code()) == Some(e)); },
        PcanError::BusPassive => { assert(PcanError::spec_from_code(e.spec_code()) == Some(e)); },
        PcanError::BusOff => { assert(PcanError::spec_from_code(e.spec_code()) == Some(e)); },
        PcanError::AnyBusErr => { assert(PcanError::spec_from_code(e.spec_code()) == Some(e)); },
        PcanError::QrcvEmpty => { assert(PcanError::spec_from_code(e.spec_code()) == Some(e)); },
        PcanError::QOverrun => { assert(PcanError::spec_from_code(e.spec_code()) == Some(e)); },
        PcanError::QxmtFull => { assert(PcanError::spec_from_code(e.spec_code()) == Some(e)); },
        PcanError::RegTest => { assert(PcanError::spec_from_code(e.spec_code()) == Some(e)); },
        PcanError::NoDriver => { assert(PcanError::spec_from_code(e.spec_code()) == Some(e)); },
        PcanError::HwInUse => { assert(PcanError::spec_from_code(e.spec_code()) == Some(e)); },
        PcanError::NetInUse => { assert(PcanError::spec_from_code(e.spec_code()) == Some(e)); },
        PcanError::IllHw => { assert(PcanError::spec_from_code(e.spec_code()) == Some(e)); },
        PcanError::IllNet => { assert(PcanError::spec_from_code(e.spec_code()) == Some(e)); },
        PcanError::IllClient => { assert(PcanError::spec_from_code(e.spec_code()) == Some(e)); },
        PcanError::Resource => { assert(PcanError::spec_from_code(e.spec_code()) == Some(e)); },
        PcanError::IllParamType => { assert(PcanError::spec_from_code(e.spec_code()) == Some(e)); },
        PcanError::IllParamVal => { assert(PcanError::spec_from_code(e.spec_code()) == Some(e)); },
        PcanError::Unknown => { assert(PcanError::spec_from_code(e.spec_code()) == Some(e)); },
        PcanError::IllData => { assert(PcanError::spec_from_code(e.spec_code()) == Some(e)); },
        PcanError::IllMode => { assert(PcanError::spec_from_code(e.spec_code()) == Some(e)); },
        PcanError::Caution => { assert(PcanError::spec_from_code(e.spec_code()) == Some(e)); },
        PcanError::Initialize => { assert(PcanError::spec_from_code(e.spec_code()) == Some(e)); },
        PcanError::IllOperation => { assert(PcanError::spec_from_code(e.spec_code()) == Some(e)); },
    }
}

/// Encoding a return code and decoding the result returns the same value.
pub proof fn lemma_ok_error_code_round_trip(s: PcanOkError)
    ensures
        PcanOkError::spec_from_code(s.spec_code()) == Some(s),
{
    match s {
        PcanOkError::Success => {
            assert(PcanOkError::spec_from_code(s.spec_code()) == Some(s));
        },
        PcanOkError::Error(e) => {
            lemma_error_code_round_trip(e);
            assert(PcanOkError::spec_from_code(s.spec_code()) == Some(s));
        },
    }
}

/// A decoded error re-encodes to the very value it was decoded from.
pub proof fn lemma_error_code_sound(value: u32)
    ensures
        match PcanError::spec_from_code(value) {
            Some(e) => e.spec_code() == value,
            None => true,
        },
{
}

} // verus!
