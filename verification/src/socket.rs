//! Frames, baud rates and the sockets that carry them.
//!
//! A frame is a fixed-size byte buffer plus an identifier, a message type
//! and a length, laid out exactly as the native message structs expect.
//! Construction clips the identifier and pads the buffer; the accessors
//! read the stored fields back.  The sockets themselves are plain holders
//! of the channel handle the driver assigned; opening, reading and writing
//! cross the native interface and are left to unverified callers, which
//! build frames from the raw outputs through [`CanFrame::from_raw`] and
//! [`CanFdFrame::from_raw`].

use vstd::prelude::*;

pub mod dng;
pub mod isa;
pub mod lan;
pub mod pcc;
pub mod pci;
pub mod usb;

use crate::error::PcanError;
use crate::pcan::{PCAN_MESSAGE_EXTENDED, PCAN_MESSAGE_STANDARD};
use crate::pcan::{
    PCAN_BAUD_100K, PCAN_BAUD_10K, PCAN_BAUD_125K, PCAN_BAUD_1M, PCAN_BAUD_20K, PCAN_BAUD_250K,
    PCAN_BAUD_33K, PCAN_BAUD_47K, PCAN_BAUD_500K, PCAN_BAUD_50K, PCAN_BAUD_5K, PCAN_BAUD_800K,
    PCAN_BAUD_83K, PCAN_BAUD_95K,
};

verus! {

/// The highest identifier an 11-bit CAN frame can carry.
pub const STANDARD_MASK: u32 = 0x07_FF;

/// The highest identifier a 29-bit CAN frame can carry.
pub const EXTENDED_MASK: u32 = 0x1F_FF_FF_FF;

/// Whether a frame carries an 11-bit or a 29-bit identifier.
#[derive(Debug, Clone, Copy, PartialEq, Eq, Structural)]
pub enum MessageType {
    Standard,
    Extended,
}

/// Why a frame could not be built.
#[derive(Debug, Clone, Copy, PartialEq, Eq, Structural)]
pub enum FrameConstructionError {
    TooMuchData,
    CanIdMessageTypeMismatch,
}

/// A classic CAN frame: up to eight data bytes.
#[derive(Debug, Clone, Copy)]
pub struct CanFrame {
    id: u32,
    msgtype: u8,
    len: u8,
    data: [u8; 8],
}

impl CanFrame {
    /// The stored identifier field, as the native struct carries it.
    pub closed spec fn spec_id(self) -> u32 {
        self.id
    }

    /// The stored message-type flags.
    pub closed spec fn spec_msgtype(self) -> u8 {
        self.msgtype
    }

    /// The stored data length.
    pub closed spec fn spec_dlc(self) -> u8 {
        self.len
    }

    /// All eight stored data bytes, the padding included.
    pub closed spec fn spec_data(self) -> Seq<u8> {
        self.data@
    }

    #[verifier::type_invariant]
    spec fn wf(self) -> bool {
        self.len <= 8
    }

    /// Whether the frame is a standard frame: the extended flag is clear.
    pub open spec fn spec_is_standard(self) -> bool {
        self.spec_msgtype() & PCAN_MESSAGE_EXTENDED == 0
    }

    /// Whether the stored flags have the extended-frame bit set.
    pub open spec fn spec_is_extended(self) -> bool {
        self.spec_msgtype() & PCAN_MESSAGE_EXTENDED != 0
    }

    /// The identifier the frame presents: the stored field, clipped to the
    /// width the standard-frame bit selects.
    pub open spec fn spec_can_id(self) -> u32 {
        if self.spec_is_standard() {
            self.spec_id() & STANDARD_MASK
        } else {
            self.spec_id() & EXTENDED_MASK
        }
    }

    /// The data bytes the length field covers.
    pub open spec fn spec_payload(self) -> Seq<u8> {
        self.spec_data().subrange(0, self.spec_dlc() as int)
    }

    /// Builds a frame from an identifier, a message type and up to eight
    /// data bytes; more bytes are refused.  The stored message type records
    /// the kind, the identifier is clipped to the kind's mask, and the
    /// buffer is padded with zeroes.
    pub fn new(can_id: u32, msg_type: MessageType, data: &[u8]) -> (r: Result<
        CanFrame,
        FrameConstructionError,
    >)
        ensures
            match r {
                Ok(f) => {
                    &&& data@.len() <= 8
                    &&& f.spec_dlc() == data@.len()
                    &&& f.spec_payload() == data@
                    &&& (forall|i: int| data@.len() <= i < 8 ==> f.spec_data()[i] == 0)
                    &&& f.spec_msgtype() == (match msg_type {
                        MessageType::Standard => PCAN_MESSAGE_STANDARD,
                        MessageType::Extended => PCAN_MESSAGE_EXTENDED,
                    })
                    &&& f.spec_is_standard() == (msg_type == MessageType::Standard)
                    &&& f.spec_is_extended() == (msg_type == MessageType::Extended)
                    &&& f.spec_id() == (match msg_type {
                        MessageType::Standard => can_id & STANDARD_MASK,
                        MessageType::Extended => can_id & EXTENDED_MASK,
                    })
                    &&& f.spec_can_id() == f.spec_id()
                },
                Err(e) => data@.len() > 8 && e == FrameConstructionError::TooMuchData,
            },
    {
        if data.len() > 8 {
            Err(FrameConstructionError::TooMuchData)
        } else {
            let mut frame_data: [u8; 8] = [0; 8];
            let mut i: usize = 0;
            while i < data.len()
                invariant
                    i <= data@.len() <= 8,
                    forall|j: int| 0 <= j < i ==> frame_data@[j] == data@[j],
                    forall|j: int| i <= j < 8 ==> frame_data@[j] == 0,
                decreases data@.len() - i,
            {
                frame_data[i] = data[i];
                i += 1;
            }
            let f = match msg_type {
                MessageType::Standard => CanFrame {
                    id: can_id & STANDARD_MASK,
                    msgtype: PCAN_MESSAGE_STANDARD,
                    len: data.len() as u8,
                    data: frame_data,
                },
                MessageType::Extended => CanFrame {
                    id: can_id & EXTENDED_MASK,
                    msgtype: PCAN_MESSAGE_EXTENDED,
                    len: data.len() as u8,
                    data: frame_data,
                },
            };
            proof {
                assert(f.spec_payload() =~= data@);
                assert(0u8 & 2u8 == 0u8) by (bit_vector);
                assert(2u8 & 2u8 == 2u8) by (bit_vector);
                assert(can_id & 0x7FFu32 & 0x7FFu32 == can_id & 0x7FFu32) by (bit_vector);
                assert(can_id & 0x1FFFFFFFu32 & 0x1FFFFFFFu32 == can_id & 0x1FFFFFFFu32)
                    by (bit_vector);
            }
            Ok(f)
        }
    }

    /// Wraps the fields of a native message struct, as a read call filled
    /// them, into a frame.
    pub fn from_raw(id: u32, msgtype: u8, len: u8, data: [u8; 8]) -> (r: CanFrame)
        requires
            len <= 8,
        ensures
            r.spec_id() == id,
            r.spec_msgtype() == msgtype,
            r.spec_dlc() == len,
            r.spec_data() == data@,
    {
        CanFrame { id, msgtype, len, data }
    }

    /// Hands the stored fields out in the native struct's order, for a
    /// write call to copy.
    pub fn raw_parts(&self) -> (r: (u32, u8, u8, [u8; 8]))
        ensures
            r.0 == self.spec_id(),
            r.1 == self.spec_msgtype(),
            r.2 == self.spec_dlc(),
            r.3@ == self.spec_data(),
    {
        (self.id, self.msgtype, self.len, self.data)
    }

    /// Whether the frame is a standard frame: the extended flag is clear.
    pub fn is_standard_frame(&self) -> (r: bool)
        ensures
            r == self.spec_is_standard(),
    {
        self.msgtype & PCAN_MESSAGE_EXTENDED == 0
    }

    /// Whether the extended-frame bit is set in the stored flags.
    pub fn is_extended_frame(&self) -> (r: bool)
        ensures
            r == self.spec_is_extended(),
    {
        self.msgtype & PCAN_MESSAGE_EXTENDED != 0
    }

    /// Returns the identifier, clipped to the width the stored flags
    /// select.
    pub fn can_id(&self) -> (r: u32)
        ensures
            r == self.spec_can_id(),
    {
        if self.is_standard_frame() {
            self.id & STANDARD_MASK
        } else {
            self.id & EXTENDED_MASK
        }
    }

    /// Returns the number of data bytes the frame carries.
    pub fn dlc(&self) -> (r: u8)
        ensures
            r == self.spec_dlc(),
            r <= 8,
            self.spec_data().len() == 8,
    {
        proof {
            use_type_invariant(self);
        }
        self.len
    }

    /// Borrows the data bytes the length field covers.
    pub fn data(&self) -> (r: &[u8])
        ensures
            r@ == self.spec_payload(),
            self.spec_dlc() <= 8,
            self.spec_data().len() == 8,
    {
        proof {
            use_type_invariant(self);
        }
        let dlc = self.len as usize;
        &self.data[0..dlc]
    }

    /// Overwrites one of the data bytes the length field covers.
    pub fn mut_data(&mut self, index: usize, value: u8)
        requires
            index < old(self).spec_dlc(),
        ensures
            final(self).spec_id() == old(self).spec_id(),
            final(self).spec_msgtype() == old(self).spec_msgtype(),
            final(self).spec_dlc() == old(self).spec_dlc(),
            final(self).spec_data() == old(self).spec_data().update(index as int, value),
    {
        proof {
            use_type_invariant(&*self);
        }
        self.data[index] = value;
    }
}

impl Default for CanFrame {
    /// An empty standard frame: identifier zero and no data.
    fn default() -> (r: Self)
        ensures
            r.spec_id() == 0,
            r.spec_msgtype() == PCAN_MESSAGE_STANDARD,
            r.spec_dlc() == 0,
            r.spec_data() =~= Seq::<u8>::new(8, |i| 0u8),
    {
        let r = CanFrame { id: 0, msgtype: PCAN_MESSAGE_STANDARD, len: 0, data: [0; 8] };
        proof {
            assert(r.spec_data() =~= Seq::<u8>::new(8, |i| 0u8));
        }
        r
    }
}

impl PartialEq for CanFrame {
    /// Two frames are equal when identifier, length, flags and the covered
    /// data bytes agree; the padding does not count.
    fn eq(&self, other: &Self) -> (r: bool) {
        proof {
            use_type_invariant(self);
            use_type_invariant(other);
        }
        if self.id != other.id {
            return false;
        }
        if self.len != other.len {
            return false;
        }
        if self.msgtype != other.msgtype {
            return false;
        }
        let mut i: usize = 0;
        let n = self.len as usize;
        while i < n
            invariant
                n == self.spec_dlc() == other.spec_dlc(),
                n <= 8,
                i <= n,
                self.spec_data().len() == 8,
                other.spec_data().len() == 8,
                forall|j: int| 0 <= j < i ==> self.spec_data()[j] == other.spec_data()[j],
            decreases n - i,
        {
            if self.data[i] != other.data[i] {
                proof {
                    assert(self.spec_payload()[i as int] != other.spec_payload()[i as int]);
                }
                return false;
            }
            i += 1;
        }
        proof {
            assert(self.spec_payload() =~= other.spec_payload());
        }
        true
    }
}

impl vstd::std_specs::cmp::PartialEqSpecImpl for CanFrame {
    open spec fn obeys_eq_spec() -> bool {
        true
    }

    open spec fn eq_spec(&self, other: &Self) -> bool {
        &&& self.spec_id() == other.spec_id()
        &&& self.spec_dlc() == other.spec_dlc()
        &&& self.spec_msgtype() == other.spec_msgtype()
        &&& self.spec_payload() == other.spec_payload()
    }
}

/// A CAN FD frame: up to sixty-four data bytes.
#[derive(Debug, Clone, Copy)]
pub struct CanFdFrame {
    id: u32,
    msgtype: u8,
    dlc: u8,
    data: [u8; 64],
}

impl CanFdFrame {
    /// The stored identifier field, as the native struct carries it.
    pub closed spec fn spec_id(self) -> u32 {
        self.id
    }

    /// The stored message-type flags.
    pub closed spec fn spec_msgtype(self) -> u8 {
        self.msgtype
    }

    /// The stored data length.
    pub closed spec fn spec_dlc(self) -> u8 {
        self.dlc
    }

    /// All sixty-four stored data bytes, the padding included.
    pub closed spec fn spec_data(self) -> Seq<u8> {
        self.data@
    }

    #[verifier::type_invariant]
    spec fn wf(self) -> bool {
        self.dlc <= 64
    }

    /// Whether the frame is a standard frame: the extended flag is clear.
    pub open spec fn spec_is_standard(self) -> bool {
        self.spec_msgtype() & PCAN_MESSAGE_EXTENDED == 0
    }

    /// Whether the stored flags have the extended-frame bit set.
    pub open spec fn spec_is_extended(self) -> bool {
        self.spec_msgtype() & PCAN_MESSAGE_EXTENDED != 0
    }

    /// The identifier the frame presents: the stored field, clipped to the
    /// width the standard-frame bit selects.
    pub open spec fn spec_can_id(self) -> u32 {
        if self.spec_is_standard() {
            self.spec_id() & STANDARD_MASK
        } else {
            self.spec_id() & EXTENDED_MASK
        }
    }

    /// The data bytes the length field covers.
    pub open spec fn spec_payload(self) -> Seq<u8> {
        self.spec_data().subrange(0, self.spec_dlc() as int)
    }

    /// Builds a frame from an identifier, a message type and up to
    /// sixty-four data bytes; more bytes are refused.  The stored message
    /// type records the kind, the identifier is clipped to the kind's
    /// mask, and the buffer is padded with zeroes.
    pub fn new(can_id: u32, msg_type: MessageType, data: &[u8]) -> (r: Result<
        CanFdFrame,
        FrameConstructionError,
    >)
        ensures
            match r {
                Ok(f) => {
                    &&& data@.len() <= 64
                    &&& f.spec_dlc() == data@.len()
                    &&& f.spec_payload() == data@
                    &&& (forall|i: int| data@.len() <= i < 64 ==> f.spec_data()[i] == 0)
                    &&& f.spec_msgtype() == (match msg_type {
                        MessageType::Standard => PCAN_MESSAGE_STANDARD,
                        MessageType::Extended => PCAN_MESSAGE_EXTENDED,
                    })
                    &&& f.spec_is_standard() == (msg_type == MessageType::Standard)
                    &&& f.spec_is_extended() == (msg_type == MessageType::Extended)
                    &&& f.spec_id() == (match msg_type {
                        MessageType::Standard => can_id & STANDARD_MASK,
                        MessageType::Extended => can_id & EXTENDED_MASK,
                    })
                    &&& f.spec_can_id() == f.spec_id()
                },
                Err(e) => data@.len() > 64 && e == FrameConstructionError::TooMuchData,
            },
    {
        if data.len() > 64 {
            Err(FrameConstructionError::TooMuchData)
        } else {
            let mut frame_data: [u8; 64] = [0; 64];
            let mut i: usize = 0;
            while i < data.len()
                invariant
                    i <= data@.len() <= 64,
                    forall|j: int| 0 <= j < i ==> frame_data@[j] == data@[j],
                    forall|j: int| i <= j < 64 ==> frame_data@[j] == 0,
                decreases data@.len() - i,
            {
                frame_data[i] = data[i];
                i += 1;
            }
            let f = match msg_type {
                MessageType::Standard => CanFdFrame {
                    id: can_id & STANDARD_MASK,
                    msgtype: PCAN_MESSAGE_STANDARD,
                    dlc: data.len() as u8,
                    data: frame_data,
                },
                MessageType::Extended => CanFdFrame {
                    id: can_id & EXTENDED_MASK,
                    msgtype: PCAN_MESSAGE_EXTENDED,
                    dlc: data.len() as u8,
                    data: frame_data,
                },
            };
            proof {
                assert(f.spec_payload() =~= data@);
                assert(0u8 & 2u8 == 0u8) by (bit_vector);
                assert(2u8 & 2u8 == 2u8) by (bit_vector);
                assert(can_id & 0x7FFu32 & 0x7FFu32 == can_id & 0x7FFu32) by (bit_vector);
                assert(can_id & 0x1FFFFFFFu32 & 0x1FFFFFFFu32 == can_id & 0x1FFFFFFFu32)
                    by (bit_vector);
            }
            Ok(f)
        }
    }

    /// Wraps the fields of a native message struct, as a read call filled
    /// them, into a frame.
    pub fn from_raw(id: u32, msgtype: u8, dlc: u8, data: [u8; 64]) -> (r: CanFdFrame)
        requires
            dlc <= 64,
        ensures
            r.spec_id() == id,
            r.spec_msgtype() == msgtype,
            r.spec_dlc() == dlc,
            r.spec_data() == data@,
    {
        CanFdFrame { id, msgtype, dlc, data }
    }

    /// Hands the stored fields out in the native struct's order, for a
    /// write call to copy.
    pub fn raw_parts(&self) -> (r: (u32, u8, u8, [u8; 64]))
        ensures
            r.0 == self.spec_id(),
            r.1 == self.spec_msgtype(),
            r.2 == self.spec_dlc(),
            r.3@ == self.spec_data(),
    {
        (self.id, self.msgtype, self.dlc, self.data)
    }

    /// Whether the frame is a standard frame: the extended flag is clear.
    pub fn is_standard_frame(&self) -> (r: bool)
        ensures
            r == self.spec_is_standard(),
    {
        self.msgtype & PCAN_MESSAGE_EXTENDED == 0
    }

    /// Whether the extended-frame bit is set in the stored flags.
    pub fn is_extended_frame(&self) -> (r: bool)
        ensures
            r == self.spec_is_extended(),
    {
        self.msgtype & PCAN_MESSAGE_EXTENDED != 0
    }

    /// Returns the identifier, clipped to the width the stored flags
    /// select.
    pub fn can_id(&self) -> (r: u32)
        ensures
            r == self.spec_can_id(),
    {
        if self.is_standard_frame() {
            self.id & STANDARD_MASK
        } else {
            self.id & EXTENDED_MASK
        }
    }

    /// Returns the number of data bytes the frame carries.
    pub fn dlc(&self) -> (r: u8)
        ensures
            r == self.spec_dlc(),
            r <= 64,
            self.spec_data().len() == 64,
    {
        proof {
            use_type_invariant(self);
        }
        self.dlc
    }

    /// Borrows the data bytes the length field covers.
    pub fn data(&self) -> (r: &[u8])
        ensures
            r@ == self.spec_payload(),
            self.spec_dlc() <= 64,
            self.spec_data().len() == 64,
    {
        proof {
            use_type_invariant(self);
        }
        let dlc = self.dlc as usize;
        &self.data[0..dlc]
    }

    /// Overwrites one of the data bytes the length field covers.
    pub fn mut_data(&mut self, index: usize, value: u8)
        requires
            index < old(self).spec_dlc(),
        ensures
            final(self).spec_id() == old(self).spec_id(),
            final(self).spec_msgtype() == old(self).spec_msgtype(),
            final(self).spec_dlc() == old(self).spec_dlc(),
            final(self).spec_data() == old(self).spec_data().update(index as int, value),
    {
        proof {
            use_type_invariant(&*self);
        }
        self.data[index] = value;
    }
}

impl Default for CanFdFrame {
    /// An empty standard frame: identifier zero and no data.
    fn default() -> (r: Self)
        ensures
            r.spec_id() == 0,
            r.spec_msgtype() == PCAN_MESSAGE_STANDARD,
            r.spec_dlc() == 0,
            r.spec_data() =~= Seq::<u8>::new(64, |i| 0u8),
    {
        let r = CanFdFrame { id: 0, msgtype: PCAN_MESSAGE_STANDARD, dlc: 0, data: [0; 64] };
        proof {
            assert(r.spec_data() =~= Seq::<u8>::new(64, |i| 0u8));
        }
        r
    }
}

impl PartialEq for CanFdFrame {
    /// Two frames are equal when identifier, length, flags and the covered
    /// data bytes agree; the padding does not count.
    fn eq(&self, other: &Self) -> (r: bool) {
        proof {
            use_type_invariant(self);
            use_type_invariant(other);
        }
        if self.id != other.id {
            return false;
        }
        if self.dlc != other.dlc {
            return false;
        }
        if self.msgtype != other.msgtype {
            return false;
        }
        let mut i: usize = 0;
        let n = self.dlc as usize;
        while i < n
            invariant
                n == self.spec_dlc() == other.spec_dlc(),
                n <= 64,
                i <= n,
                self.spec_data().len() == 64,
                other.spec_data().len() == 64,
                forall|j: int| 0 <= j < i ==> self.spec_data()[j] == other.spec_data()[j],
            decreases n - i,
        {
            if self.data[i] != other.data[i] {
                proof {
                    assert(self.spec_payload()[i as int] != other.spec_payload()[i as int]);
                }
                return false;
            }
            i += 1;
        }
        proof {
            assert(self.spec_payload() =~= other.spec_payload());
        }
        true
    }
}

impl vstd::std_specs::cmp::PartialEqSpecImpl for CanFdFrame {
    open spec fn obeys_eq_spec() -> bool {
        true
    }

    open spec fn eq_spec(&self, other: &Self) -> bool {
        &&& self.spec_id() == other.spec_id()
        &&& self.spec_dlc() == other.spec_dlc()
        &&& self.spec_msgtype() == other.spec_msgtype()
        &&& self.spec_payload() == other.spec_payload()
    }
}

/// The moment a frame arrived, as the driver counts time.
#[derive(Debug, Clone, Copy, PartialEq, Eq, Structural)]
pub struct Timestamp {
    pub millis: u32,
    pub millis_overflow: u16,
    pub micros: u16,
}

impl Default for Timestamp {
    /// The zero of the driver's clock.
    fn default() -> (r: Self)
        ensures
            r.millis == 0,
            r.millis_overflow == 0,
            r.micros == 0,
    {
        Timestamp { millis: 0, millis_overflow: 0, micros: 0 }
    }
}

/// A socket on a classic CAN channel of any bus kind, holding the channel
/// handle the driver assigned.
#[derive(Debug, Clone, Copy, PartialEq, Eq, Structural)]
pub struct CanSocket {
    pub handle: u16,
}

impl CanSocket {
    /// Wraps a channel handle an initialize call returned.
    pub fn new(handle: u16) -> (r: CanSocket)
        ensures
            r.handle == handle,
    {
        CanSocket { handle }
    }
}

impl crate::bus::ToHandle for CanSocket {
    open spec fn spec_handle(&self) -> u16 {
        self.handle
    }

    fn handle(&self) -> u16 {
        self.handle
    }
}

/// Reading classic frames from a socket.
pub trait CanRead {
    /// Reads one frame and the moment it arrived.
    fn read(&self) -> Result<(CanFrame, Timestamp), PcanError>;

    /// Reads one frame and discards the moment it arrived.
    fn read_frame(&self) -> Result<CanFrame, PcanError>;
}

/// Reading CAN FD frames from a socket.
pub trait CanReadFd {
    /// Reads one frame and the microsecond it arrived.
    fn read_fd(&self) -> Result<(CanFdFrame, u64), PcanError>;

    /// Reads one frame and discards the moment it arrived.
    fn read_fd_frame(&self) -> Result<CanFdFrame, PcanError>;
}

/// Writing classic frames to a socket.
pub trait CanWrite {
    /// Writes one frame.
    fn write(&self, frame: CanFrame) -> Result<(), PcanError>;
}

/// Writing CAN FD frames to a socket.
pub trait CanWriteFd {
    /// Writes one frame.
    fn write_fd(&self, frame: CanFdFrame) -> Result<(), PcanError>;
}

/// The fixed baud rates the driver accepts, each a bit-timing register
/// value.
#[derive(Debug, Clone, Copy, PartialEq, Eq, Structural)]
pub enum Baudrate {
    Baud1M,
    Baud800K,
    Baud500K,
    Baud250K,
    Baud125K,
    Baud100K,
    Baud95K,
    Baud83,
    Baud50K,
    Baud47K,
    Baud33K,
    Baud20K,
    Baud10K,
    Baud5K,
}

impl Baudrate {
    /// The bit-timing register value the driver documents for this rate.
    pub open spec fn spec_code(self) -> u16 {
        match self {
            Baudrate::Baud1M => PCAN_BAUD_1M,
            Baudrate::Baud800K => PCAN_BAUD_800K,
            Baudrate::Baud500K => PCAN_BAUD_500K,
            Baudrate::Baud250K => PCAN_BAUD_250K,
            Baudrate::Baud125K => PCAN_BAUD_125K,
            Baudrate::Baud100K => PCAN_BAUD_100K,
            Baudrate::Baud95K => PCAN_BAUD_95K,
            Baudrate::Baud83 => PCAN_BAUD_83K,
            Baudrate::Baud50K => PCAN_BAUD_50K,
            Baudrate::Baud47K => PCAN_BAUD_47K,
            Baudrate::Baud33K => PCAN_BAUD_33K,
            Baudrate::Baud20K => PCAN_BAUD_20K,
            Baudrate::Baud10K => PCAN_BAUD_10K,
            Baudrate::Baud5K => PCAN_BAUD_5K,
        }
    }

    /// Returns the bit-timing register value for this rate, as an
    /// initialize call takes it.
    pub fn code(self) -> (r: u16)
        ensures
            r == self.spec_code(),
    {
        match self {
            Baudrate::Baud1M => PCAN_BAUD_1M,
            Baudrate::Baud800K => PCAN_BAUD_800K,
            Baudrate::Baud500K => PCAN_BAUD_500K,
            Baudrate::Baud250K => PCAN_BAUD_250K,
            Baudrate::Baud125K => PCAN_BAUD_125K,
            Baudrate::Baud100K => PCAN_BAUD_100K,
            Baudrate::Baud95K => PCAN_BAUD_95K,
            Baudrate::Baud83 => PCAN_BAUD_83K,
            Baudrate::Baud50K => PCAN_BAUD_50K,
            Baudrate::Baud47K => PCAN_BAUD_47K,
            Baudrate::Baud33K => PCAN_BAUD_33K,
            Baudrate::Baud20K => PCAN_BAUD_20K,
            Baudrate::Baud10K => PCAN_BAUD_10K,
            Baudrate::Baud5K => PCAN_BAUD_5K,
        }
    }
}

} // verus!
