//! Informational parameters: versions, features and bus speeds.
//!
//! The channel version is the one parameter with structure of its own: a
//! buffer of UTF-8 text holding three lines, each padded with zero bytes,
//! which become the three fields of [`Version`].

use vstd::prelude::*;

use vstd::string::StringExecFns;
use vstd::utf8::{decode_utf8, valid_utf8};

use crate::error::PcanError;
use crate::param::spec_status;
use crate::param::status_result;
use crate::text::{spec_lines, spec_trim_nuls, split_lines, trim_nuls, utf8_to_str};

verus! {

/// The driver's description of a channel, three lines of text.
#[derive(Debug, Clone, PartialEq)]
pub struct Version {
    pub device_driver_name_and_version: String,
    pub year_of_copyright: String,
    pub company_name_and_city: String,
}

/// What the outputs of a channel-version get-call mean: the buffer's text
/// must hold exactly three lines, each handed out with its zero padding
/// stripped; anything else is the unknown error.
pub open spec fn spec_channel_version(code: u32, data: Seq<u8>) -> Result<
    (Seq<char>, Seq<char>, Seq<char>),
    PcanError,
> {
    match spec_status(code) {
        Ok(()) => if valid_utf8(data) {
            let lines = spec_lines(decode_utf8(data));
            if lines.len() == 3 {
                Ok((spec_trim_nuls(lines[0]), spec_trim_nuls(lines[1]), spec_trim_nuls(lines[2])))
            } else {
                Err(PcanError::Unknown)
            }
        } else {
            Err(PcanError::Unknown)
        },
        Err(e) => Err(e),
    }
}

/// Decodes the outputs of a channel-version get-call into a [`Version`].
pub fn channel_version_from_output(code: u32, data: &[u8]) -> (r: Result<Version, PcanError>)
    ensures
        match r {
            Ok(v) => spec_channel_version(code, data@) == Ok::<_, PcanError>(
                (
                    v.device_driver_name_and_version@,
                    v.year_of_copyright@,
                    v.company_name_and_city@,
                ),
            ),
            Err(e) => spec_channel_version(code, data@) == Err::<(Seq<char>, Seq<char>, Seq<char>), PcanError>(
                e,
            ),
        },
{
    match status_result(code) {
        Ok(()) => match utf8_to_str(data) {
            Some(s) => {
                let lines = split_lines(s);
                if lines.len() == 3 {
                    Ok(
                        Version {
                            device_driver_name_and_version: trim_nuls(lines[0].as_str()),
                            year_of_copyright: trim_nuls(lines[1].as_str()),
                            company_name_and_city: trim_nuls(lines[2].as_str()),
                        },
                    )
                } else {
                    Err(PcanError::Unknown)
                }
            },
            None => Err(PcanError::Unknown),
        },
        Err(e) => Err(e),
    }
}

/// Reading the channel's version text.
pub trait ChannelVersion {
    /// Returns the driver's description of the channel.
    fn channel_version(&self) -> Result<Version, PcanError>;
}

/// Reading what the channel's hardware can do.
pub trait ChannelFeatures {
    /// Whether the channel speaks CAN FD.
    fn is_fd_capable(&self) -> Result<bool, PcanError>;

    /// Whether the channel can delay between transmissions.
    fn is_delay_capable(&self) -> Result<bool, PcanError>;

    /// Whether the channel has I/O pins.
    fn is_io_capable(&self) -> Result<bool, PcanError>;
}

/// Reading the bit-timing registers of a classic channel.
pub trait BitrateInfo {
    /// Returns the two bit-timing register words.
    fn bitrate_info(&self) -> Result<(u16, u16), PcanError>;
}

/// Reading the bit-rate text of a CAN FD channel.
pub trait BitrateInfoFd {
    /// Returns the channel's bit-rate description.
    fn bitrate_info_fd(&self) -> Result<String, PcanError>;
}

/// Reading the nominal bus speed.
pub trait NominalBusSpeed {
    /// Returns the nominal speed in bits per second.
    fn nominal_bus_speed(&self) -> Result<u32, PcanError>;
}

/// Reading the data bus speed of a CAN FD channel.
pub trait DataBusSpeed {
    /// Returns the data speed in bits per second.
    fn data_bus_speed(&self) -> Result<u32, PcanError>;
}

/// Reading the hardware's firmware version.
pub trait FirmwareVersion {
    /// Returns the firmware version text.
    fn firmware_version(&self) -> Result<String, PcanError>;
}

} // verus!
