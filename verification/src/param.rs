//! Encoding and decoding of parameter buffers.
//!
//! Every property the driver exposes is read and written through the same
//! two native entry points, as a status word plus a fixed-size little-endian
//! byte buffer.  The functions here turn typed values into such buffers and
//! the outputs of a call back into typed values; each accessor of the
//! library is one of these translations applied to one parameter code.

use vstd::prelude::*;

use crate::error::{PcanError, PcanOkError};
use crate::pcan::{PCAN_PARAMETER_OFF, PCAN_PARAMETER_ON};
use crate::text::{spec_trim_nuls, trimmed_text};
use vstd::utf8::{decode_utf8, valid_utf8};

verus! {

/// The number a 4-byte little-endian buffer denotes.
pub open spec fn spec_u32_le(b: Seq<u8>) -> u32
    recommends
        b.len() == 4,
{
    (b[0] + b[1] * 0x100 + b[2] * 0x1_0000 + b[3] * 0x100_0000) as u32
}

/// The number a 2-byte little-endian buffer denotes.
pub open spec fn spec_u16_le(b: Seq<u8>) -> u16
    recommends
        b.len() == 2,
{
    (b[0] + b[1] * 0x100) as u16
}

/// The 4-byte little-endian buffer that denotes a number.
pub open spec fn spec_u32_le_bytes(v: u32) -> Seq<u8> {
    seq![
        (v % 0x100) as u8,
        ((v / 0x100) % 0x100) as u8,
        ((v / 0x1_0000) % 0x100) as u8,
        ((v / 0x100_0000) % 0x100) as u8,
    ]
}

/// Reads a number out of a 4-byte little-endian buffer.
pub fn u32_from_le_bytes(b: &[u8; 4]) -> (r: u32)
    ensures
        r == spec_u32_le(b@),
{
    b[0] as u32 + b[1] as u32 * 0x100 + b[2] as u32 * 0x1_0000 + b[3] as u32 * 0x100_0000
}

/// Reads a number out of a 2-byte little-endian buffer.
pub fn u16_from_le_bytes(b: &[u8; 2]) -> (r: u16)
    ensures
        r == spec_u16_le(b@),
{
    b[0] as u16 + b[1] as u16 * 0x100
}

/// Writes a number as a 4-byte little-endian buffer.
pub fn u32_to_le_bytes(v: u32) -> (r: [u8; 4])
    ensures
        r@ == spec_u32_le_bytes(v),
        spec_u32_le(r@) == v,
{
    let r = [
        (v % 0x100) as u8,
        ((v / 0x100) % 0x100) as u8,
        ((v / 0x1_0000) % 0x100) as u8,
        ((v / 0x100_0000) % 0x100) as u8,
    ];
    proof {
        assert(r@ =~= spec_u32_le_bytes(v));
        lemma_u32_le_round_trip(v);
    }
    r
}

/// A buffer written for a number reads back as that number.
pub proof fn lemma_u32_le_round_trip(v: u32)
    ensures
        spec_u32_le(spec_u32_le_bytes(v)) == v,
{
    let b = spec_u32_le_bytes(v);
    assert(b[0] + b[1] * 0x100 + b[2] * 0x1_0000 + b[3] * 0x100_0000 == v) by (nonlinear_arith)
        requires
            b == spec_u32_le_bytes(v),
    ;
}

/// What a status word alone decides: the value of every set-call, and the
/// first stage of every get-call.  A word that names no documented code is
/// reported as the unknown error.
pub open spec fn spec_status(code: u32) -> Result<(), PcanError> {
    match PcanOkError::spec_from_code(code) {
        Some(PcanOkError::Success) => Ok(()),
        Some(PcanOkError::Error(e)) => Err(e),
        None => Err(PcanError::Unknown),
    }
}

/// The status mapping is faithful: the success code maps to success, and
/// the code of each error maps to that error.
pub proof fn lemma_status_of_code()
    ensures
        spec_status(crate::pcan::PCAN_ERROR_OK) == Ok::<(), PcanError>(()),
        forall|e: PcanError| spec_status(#[trigger] e.spec_code()) == Err::<(), PcanError>(e),
{
    assert forall|e: PcanError| spec_status(#[trigger] e.spec_code()) == Err::<(), PcanError>(
        e,
    ) by {
        crate::error::lemma_ok_error_code_round_trip(PcanOkError::Error(e));
    }
}

/// Maps the status word of a call that returns no data.
pub fn status_result(code: u32) -> (r: Result<(), PcanError>)
    ensures
        r == spec_status(code),
{
    match PcanOkError::try_from(code) {
        Ok(PcanOkError::Success) => Ok(()),
        Ok(PcanOkError::Error(err)) => Err(err),
        Err(()) => Err(PcanError::Unknown),
    }
}

/// What a get-call whose buffer denotes `value` returns.
pub open spec fn spec_output<T>(code: u32, value: T) -> Result<T, PcanError> {
    match spec_status(code) {
        Ok(()) => Ok(value),
        Err(e) => Err(e),
    }
}

/// Decodes the outputs of a get-call for a plain numeric parameter.
pub fn u32_from_output(code: u32, data: &[u8; 4]) -> (r: Result<u32, PcanError>)
    ensures
        r == spec_output(code, spec_u32_le(data@)),
{
    let value = u32_from_le_bytes(data);
    match status_result(code) {
        Ok(()) => Ok(value),
        Err(e) => Err(e),
    }
}

/// The 4-byte buffer that switches a parameter on or off.
pub fn flag_buffer(enable: bool) -> (r: [u8; 4])
    ensures
        r@ == spec_u32_le_bytes(if enable { PCAN_PARAMETER_ON } else { PCAN_PARAMETER_OFF }),
{
    if enable {
        u32_to_le_bytes(PCAN_PARAMETER_ON)
    } else {
        u32_to_le_bytes(PCAN_PARAMETER_OFF)
    }
}

/// What a switch value read back from the driver means: on, off, or
/// unintelligible.
pub open spec fn spec_flag_value(value: u32) -> Result<bool, PcanError> {
    if value == PCAN_PARAMETER_ON {
        Ok(true)
    } else if value == PCAN_PARAMETER_OFF {
        Ok(false)
    } else {
        Err(PcanError::Unknown)
    }
}

/// Decodes the outputs of a get-call for a parameter that must answer with
/// exactly the on or the off value.
pub fn flag_from_output(code: u32, data: &[u8; 4]) -> (r: Result<bool, PcanError>)
    ensures
        r == match spec_status(code) {
            Ok(()) => spec_flag_value(spec_u32_le(data@)),
            Err(e) => Err::<bool, PcanError>(e),
        },
{
    let value = u32_from_le_bytes(data);
    match status_result(code) {
        Ok(()) => {
            if value == PCAN_PARAMETER_ON {
                Ok(true)
            } else if value == PCAN_PARAMETER_OFF {
                Ok(false)
            } else {
                Err(PcanError::Unknown)
            }
        },
        Err(e) => Err(e),
    }
}

/// The library's half of the driver's set-then-get round trip: the buffer
/// written to switch a parameter, read back under a successful status,
/// decodes to the very value that was written.
pub proof fn lemma_flag_round_trip(enable: bool)
    ensures
        spec_flag_value(
            spec_u32_le(
                spec_u32_le_bytes(
                    if enable {
                        PCAN_PARAMETER_ON
                    } else {
                        PCAN_PARAMETER_OFF
                    },
                ),
            ),
        ) == Ok::<bool, PcanError>(enable),
{
    if enable {
        lemma_u32_le_round_trip(PCAN_PARAMETER_ON);
    } else {
        lemma_u32_le_round_trip(PCAN_PARAMETER_OFF);
    }
}

/// Decodes the outputs of a get-call for a parameter that answers with a set
/// of bits: the answer is whether all the bits of `mask` are present.
pub fn masked_flag_from_output(code: u32, data: &[u8; 4], mask: u32) -> (r: Result<
    bool,
    PcanError,
>)
    ensures
        r == spec_output(code, spec_u32_le(data@) & mask == mask),
{
    let value = u32_from_le_bytes(data);
    match status_result(code) {
        Ok(()) => Ok(value & mask == mask),
        Err(e) => Err(e),
    }
}

/// Decodes the outputs of a get-call whose 4-byte buffer carries two 16-bit
/// words, low word first.
pub fn u16_pair_from_output(code: u32, data: &[u8; 4]) -> (r: Result<(u16, u16), PcanError>)
    ensures
        r == spec_output(
            code,
            (spec_u16_le(data@.subrange(0, 2)), spec_u16_le(data@.subrange(2, 4))),
        ),
{
    let low = u16_from_le_bytes(&[data[0], data[1]]);
    let high = u16_from_le_bytes(&[data[2], data[3]]);
    proof {
        assert(data@.subrange(0, 2) =~= seq![data@[0], data@[1]]);
        assert(data@.subrange(2, 4) =~= seq![data@[2], data@[3]]);
    }
    match status_result(code) {
        Ok(()) => Ok((low, high)),
        Err(e) => Err(e),
    }
}

/// What a get-call for a text parameter returns: the buffer's characters
/// with the zero padding stripped, or the unknown error for bytes that are
/// not UTF-8.
pub open spec fn spec_string_output(code: u32, data: Seq<u8>) -> Result<Seq<char>, PcanError> {
    match spec_status(code) {
        Ok(()) => if valid_utf8(data) {
            Ok(spec_trim_nuls(decode_utf8(data)))
        } else {
            Err(PcanError::Unknown)
        },
        Err(e) => Err(e),
    }
}

/// Decodes the outputs of a get-call for a text parameter.
pub fn string_from_output(code: u32, data: &[u8]) -> (r: Result<String, PcanError>)
    ensures
        match r {
            Ok(s) => spec_string_output(code, data@) == Ok::<Seq<char>, PcanError>(s@),
            Err(e) => spec_string_output(code, data@) == Err::<Seq<char>, PcanError>(e),
        },
{
    match status_result(code) {
        Ok(()) => match trimmed_text(data) {
            Some(s) => Ok(s),
            None => Err(PcanError::Unknown),
        },
        Err(e) => Err(e),
    }
}

/// Decodes the outputs of a get-call whose 8-byte buffer carries two 32-bit
/// words, low word first.
pub fn u32_pair_from_output(code: u32, data: &[u8; 8]) -> (r: Result<(u32, u32), PcanError>)
    ensures
        r == spec_output(
            code,
            (spec_u32_le(data@.subrange(0, 4)), spec_u32_le(data@.subrange(4, 8))),
        ),
{
    let low = u32_from_le_bytes(&[data[0], data[1], data[2], data[3]]);
    let high = u32_from_le_bytes(&[data[4], data[5], data[6], data[7]]);
    proof {
        assert(data@.subrange(0, 4) =~= seq![data@[0], data@[1], data@[2], data@[3]]);
        assert(data@.subrange(4, 8) =~= seq![data@[4], data@[5], data@[6], data@[7]]);
    }
    match status_result(code) {
        Ok(()) => Ok((low, high)),
        Err(e) => Err(e),
    }
}

} // verus!
