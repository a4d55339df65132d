//! The numeric contract of the PCAN-Basic driver.
//!
//! Channel handles, parameter codes, return codes and flag values are fixed
//! by the vendor's C header; the whole library speaks in terms of these
//! numbers.  They are restated here so that contracts can refer to them.

use vstd::prelude::*;

verus! {

/* Channel handles */

/// The handle used for driver-wide parameters that belong to no channel.
pub const PCAN_NONEBUS: u16 = 0x00;

pub const PCAN_ISABUS1: u16 = 0x21;
pub const PCAN_ISABUS2: u16 = 0x22;
pub const PCAN_ISABUS3: u16 = 0x23;
pub const PCAN_ISABUS4: u16 = 0x24;
pub const PCAN_ISABUS5: u16 = 0x25;
pub const PCAN_ISABUS6: u16 = 0x26;
pub const PCAN_ISABUS7: u16 = 0x27;
pub const PCAN_ISABUS8: u16 = 0x28;

pub const PCAN_DNGBUS1: u16 = 0x31;

pub const PCAN_PCIBUS1: u16 = 0x41;
pub const PCAN_PCIBUS2: u16 = 0x42;
pub const PCAN_PCIBUS3: u16 = 0x43;
pub const PCAN_PCIBUS4: u16 = 0x44;
pub const PCAN_PCIBUS5: u16 = 0x45;
pub const PCAN_PCIBUS6: u16 = 0x46;
pub const PCAN_PCIBUS7: u16 = 0x47;
pub const PCAN_PCIBUS8: u16 = 0x48;
pub const PCAN_PCIBUS9: u16 = 0x409;
pub const PCAN_PCIBUS10: u16 = 0x40A;
pub const PCAN_PCIBUS11: u16 = 0x40B;
pub const PCAN_PCIBUS12: u16 = 0x40C;
pub const PCAN_PCIBUS13: u16 = 0x40D;
pub const PCAN_PCIBUS14: u16 = 0x40E;
pub const PCAN_PCIBUS15: u16 = 0x40F;
pub const PCAN_PCIBUS16: u16 = 0x410;

pub const PCAN_USBBUS1: u16 = 0x51;
pub const PCAN_USBBUS2: u16 = 0x52;
pub const PCAN_USBBUS3: u16 = 0x53;
pub const PCAN_USBBUS4: u16 = 0x54;
pub const PCAN_USBBUS5: u16 = 0x55;
pub const PCAN_USBBUS6: u16 = 0x56;
pub const PCAN_USBBUS7: u16 = 0x57;
pub const PCAN_USBBUS8: u16 = 0x58;
pub const PCAN_USBBUS9: u16 = 0x509;
pub const PCAN_USBBUS10: u16 = 0x50A;
pub const PCAN_USBBUS11: u16 = 0x50B;
pub const PCAN_USBBUS12: u16 = 0x50C;
pub const PCAN_USBBUS13: u16 = 0x50D;
pub const PCAN_USBBUS14: u16 = 0x50E;
pub const PCAN_USBBUS15: u16 = 0x50F;
pub const PCAN_USBBUS16: u16 = 0x510;

pub const PCAN_PCCBUS1: u16 = 0x61;
pub const PCAN_PCCBUS2: u16 = 0x62;

pub const PCAN_LANBUS1: u16 = 0x801;
pub const PCAN_LANBUS2: u16 = 0x802;
pub const PCAN_LANBUS3: u16 = 0x803;
pub const PCAN_LANBUS4: u16 = 0x804;
pub const PCAN_LANBUS5: u16 = 0x805;
pub const PCAN_LANBUS6: u16 = 0x806;
pub const PCAN_LANBUS7: u16 = 0x807;
pub const PCAN_LANBUS8: u16 = 0x808;
pub const PCAN_LANBUS9: u16 = 0x809;
pub const PCAN_LANBUS10: u16 = 0x80A;
pub const PCAN_LANBUS11: u16 = 0x80B;
pub const PCAN_LANBUS12: u16 = 0x80C;
pub const PCAN_LANBUS13: u16 = 0x80D;
pub const PCAN_LANBUS14: u16 = 0x80E;
pub const PCAN_LANBUS15: u16 = 0x80F;
pub const PCAN_LANBUS16: u16 = 0x810;

/* Return codes */

pub const PCAN_ERROR_OK: u32 = 0x00000;
pub const PCAN_ERROR_XMTFULL: u32 = 0x00001;
pub const PCAN_ERROR_OVERRUN: u32 = 0x00002;
pub const PCAN_ERROR_BUSLIGHT: u32 = 0x00004;
pub const PCAN_ERROR_BUSHEAVY: u32 = 0x00008;
pub const PCAN_ERROR_BUSWARNING: u32 = PCAN_ERROR_BUSHEAVY;
pub const PCAN_ERROR_BUSPASSIVE: u32 = 0x40000;
pub const PCAN_ERROR_BUSOFF: u32 = 0x00010;
pub const PCAN_ERROR_ANYBUSERR: u32 = 0x4001C;
pub const PCAN_ERROR_QRCVEMPTY: u32 = 0x00020;
pub const PCAN_ERROR_QOVERRUN: u32 = 0x00040;
pub const PCAN_ERROR_QXMTFULL: u32 = 0x00080;
pub const PCAN_ERROR_REGTEST: u32 = 0x00100;
pub const PCAN_ERROR_NODRIVER: u32 = 0x00200;
pub const PCAN_ERROR_HWINUSE: u32 = 0x00400;
pub const PCAN_ERROR_NETINUSE: u32 = 0x00800;
pub const PCAN_ERROR_ILLHW: u32 = 0x01400;
pub const PCAN_ERROR_ILLNET: u32 = 0x01800;
pub const PCAN_ERROR_ILLCLIENT: u32 = 0x01C00;
pub const PCAN_ERROR_RESOURCE: u32 = 0x02000;
pub const PCAN_ERROR_ILLPARAMTYPE: u32 = 0x04000;
pub const PCAN_ERROR_ILLPARAMVAL: u32 = 0x08000;
pub const PCAN_ERROR_UNKNOWN: u32 = 0x10000;
pub const PCAN_ERROR_ILLDATA: u32 = 0x20000;
pub const PCAN_ERROR_ILLMODE: u32 = 0x80000;
pub const PCAN_ERROR_CAUTION: u32 = 0x2000000;
pub const PCAN_ERROR_INITIALIZE: u32 = 0x4000000;
pub const PCAN_ERROR_ILLOPERATION: u32 = 0x8000000;

/* Parameter codes */

pub const PCAN_DEVICE_ID: u8 = 0x01;
pub const PCAN_5VOLTS_POWER: u8 = 0x02;
pub const PCAN_RECEIVE_EVENT: u8 = 0x03;
pub const PCAN_MESSAGE_FILTER: u8 = 0x04;
pub const PCAN_API_VERSION: u8 = 0x05;
pub const PCAN_CHANNEL_VERSION: u8 = 0x06;
pub const PCAN_BUSOFF_AUTORESET: u8 = 0x07;
pub const PCAN_LISTEN_ONLY: u8 = 0x08;
pub const PCAN_LOG_LOCATION: u8 = 0x09;
pub const PCAN_LOG_STATUS: u8 = 0x0A;
pub const PCAN_LOG_CONFIGURE: u8 = 0x0B;
pub const PCAN_LOG_TEXT: u8 = 0x0C;
pub const PCAN_CHANNEL_CONDITION: u8 = 0x0D;
pub const PCAN_HARDWARE_NAME: u8 = 0x0E;
pub const PCAN_RECEIVE_STATUS: u8 = 0x0F;
pub const PCAN_CONTROLLER_NUMBER: u8 = 0x10;
pub const PCAN_TRACE_LOCATION: u8 = 0x11;
pub const PCAN_TRACE_STATUS: u8 = 0x12;
pub const PCAN_TRACE_SIZE: u8 = 0x13;
pub const PCAN_TRACE_CONFIGURE: u8 = 0x14;
pub const PCAN_CHANNEL_IDENTIFYING: u8 = 0x15;
pub const PCAN_CHANNEL_FEATURES: u8 = 0x16;
pub const PCAN_BITRATE_ADAPTING: u8 = 0x17;
pub const PCAN_BITRATE_INFO: u8 = 0x18;
pub const PCAN_BITRATE_INFO_FD: u8 = 0x19;
pub const PCAN_BUSSPEED_NOMINAL: u8 = 0x1A;
pub const PCAN_BUSSPEED_DATA: u8 = 0x1B;
pub const PCAN_IP_ADDRESS: u8 = 0x1C;
pub const PCAN_LAN_SERVICE_STATUS: u8 = 0x1D;
pub const PCAN_ALLOW_STATUS_FRAMES: u8 = 0x1E;
pub const PCAN_ALLOW_RTR_FRAMES: u8 = 0x1F;
pub const PCAN_ALLOW_ERROR_FRAMES: u8 = 0x20;
pub const PCAN_INTERFRAME_DELAY: u8 = 0x21;
pub const PCAN_ACCEPTANCE_FILTER_11BIT: u8 = 0x22;
pub const PCAN_ACCEPTANCE_FILTER_29BIT: u8 = 0x23;
pub const PCAN_IO_DIGITAL_CONFIGURATION: u8 = 0x24;
pub const PCAN_IO_DIGITAL_VALUE: u8 = 0x25;
pub const PCAN_IO_DIGITAL_SET: u8 = 0x26;
pub const PCAN_IO_DIGITAL_CLEAR: u8 = 0x27;
pub const PCAN_IO_ANALOG_VALUE: u8 = 0x28;
pub const PCAN_FIRMWARE_VERSION: u8 = 0x29;
pub const PCAN_ATTACHED_CHANNELS_COUNT: u8 = 0x2A;
pub const PCAN_ATTACHED_CHANNELS: u8 = 0x2B;
pub const PCAN_ALLOW_ECHO_FRAMES: u8 = 0x2C;
pub const PCAN_DEVICE_PART_NUMBER: u8 = 0x2D;

/* Parameter values */

pub const PCAN_PARAMETER_OFF: u32 = 0x00;
pub const PCAN_PARAMETER_ON: u32 = 0x01;
pub const PCAN_FILTER_CLOSE: u32 = 0x00;
pub const PCAN_FILTER_OPEN: u32 = 0x01;
pub const PCAN_FILTER_CUSTOM: u32 = 0x02;

pub const PCAN_CHANNEL_UNAVAILABLE: u32 = 0x00;
pub const PCAN_CHANNEL_AVAILABLE: u32 = 0x01;
pub const PCAN_CHANNEL_OCCUPIED: u32 = 0x02;
pub const PCAN_CHANNEL_PCANVIEW: u32 = 0x03;

pub const LOG_FUNCTION_DEFAULT: u32 = 0x00;
pub const LOG_FUNCTION_ENTRY: u32 = 0x01;
pub const LOG_FUNCTION_PARAMETERS: u32 = 0x02;
pub const LOG_FUNCTION_LEAVE: u32 = 0x04;
pub const LOG_FUNCTION_WRITE: u32 = 0x08;
pub const LOG_FUNCTION_READ: u32 = 0x10;
pub const LOG_FUNCTION_ALL: u32 = 0xFFFF;

pub const TRACE_FILE_SINGLE: u32 = 0x00;
pub const TRACE_FILE_SEGMENTED: u32 = 0x01;
pub const TRACE_FILE_DATE: u32 = 0x02;
pub const TRACE_FILE_TIME: u32 = 0x04;
pub const TRACE_FILE_OVERWRITE: u32 = 0x80;

pub const FEATURE_FD_CAPABLE: u32 = 0x01;
pub const FEATURE_DELAY_CAPABLE: u32 = 0x02;
pub const FEATURE_IO_CAPABLE: u32 = 0x04;

pub const SERVICE_STATUS_STOPPED: u32 = 0x01;
pub const SERVICE_STATUS_RUNNING: u32 = 0x04;

/* Message type flags */

pub const PCAN_MESSAGE_STANDARD: u8 = 0x00;
pub const PCAN_MESSAGE_RTR: u8 = 0x01;
pub const PCAN_MESSAGE_EXTENDED: u8 = 0x02;
pub const PCAN_MESSAGE_FD: u8 = 0x04;
pub const PCAN_MESSAGE_BRS: u8 = 0x08;
pub const PCAN_MESSAGE_ESI: u8 = 0x10;
pub const PCAN_MESSAGE_ECHO: u8 = 0x20;
pub const PCAN_MESSAGE_ERRFRAME: u8 = 0x40;
pub const PCAN_MESSAGE_STATUS: u8 = 0x80;

/* Baud rate register values */

pub const PCAN_BAUD_1M: u16 = 0x0014;
pub const PCAN_BAUD_800K: u16 = 0x0016;
pub const PCAN_BAUD_500K: u16 = 0x001C;
pub const PCAN_BAUD_250K: u16 = 0x011C;
pub const PCAN_BAUD_125K: u16 = 0x031C;
pub const PCAN_BAUD_100K: u16 = 0x432F;
pub const PCAN_BAUD_95K: u16 = 0xC34E;
pub const PCAN_BAUD_83K: u16 = 0x852B;
pub const PCAN_BAUD_50K: u16 = 0x472F;
pub const PCAN_BAUD_47K: u16 = 0x1414;
pub const PCAN_BAUD_33K: u16 = 0x8B2F;
pub const PCAN_BAUD_20K: u16 = 0x532F;
pub const PCAN_BAUD_10K: u16 = 0x672F;
pub const PCAN_BAUD_5K: u16 = 0x7F7F;

/// The code for a bus error of any severity is the union of the codes for
/// the four severities the driver distinguishes.
pub proof fn lemma_any_bus_err_is_union()
    ensures
        PCAN_ERROR_ANYBUSERR == PCAN_ERROR_BUSWARNING | PCAN_ERROR_BUSLIGHT
            | PCAN_ERROR_BUSHEAVY | PCAN_ERROR_BUSOFF | PCAN_ERROR_BUSPASSIVE,
        PCAN_CHANNEL_PCANVIEW == PCAN_CHANNEL_AVAILABLE | PCAN_CHANNEL_OCCUPIED,
{
    assert(0x4001Cu32 == 0x8u32 | 0x4u32 | 0x8u32 | 0x10u32 | 0x40000u32) by (bit_vector);
    assert(0x03u32 == 0x01u32 | 0x02u32) by (bit_vector);
}

/* Buffer widths */

pub const MAX_LENGTH_HARDWARE_NAME: usize = 33;
pub const MAX_LENGTH_VERSION_STRING: usize = 256;

} // verus!
