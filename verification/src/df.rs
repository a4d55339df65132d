//! Data-flow configuration: message filters, receive status, and the kinds
//! of frames a channel lets through.
//!
//! The acceptance filters are the one place the library computes rather
//! than copies: a list of identifiers is folded into an acceptance code
//! (the bits every identifier shares, by and) and an acceptance mask (their
//! running exclusive or), and the two words are packed into the 8-byte
//! buffer the driver takes, mask first.

use vstd::prelude::*;

use crate::error::PcanError;
use crate::param::{spec_output, spec_u32_le, spec_u32_le_bytes, status_result, u32_from_le_bytes,
    u32_to_le_bytes};
use crate::socket::{EXTENDED_MASK, STANDARD_MASK};

verus! {

/* Message filter */

/// Reading whether the channel's message filter is fully open or closed.
pub trait MessageFilter {
    /// Whether the filter lets every message through.
    fn is_open_filter(&self) -> Result<bool, PcanError>;

    /// Whether the filter lets no message through.
    fn is_closed_filter(&self) -> Result<bool, PcanError>;
}

/// Opening and closing the channel's message filter.
pub trait SetMessageFilter {
    /// Lets every message through.
    fn set_open_filter(&self) -> Result<(), PcanError>;

    /// Lets no message through.
    fn set_closed_filter(&self) -> Result<(), PcanError>;
}

/// Decodes the outputs of a message-filter get-call: whether the filter
/// word equals the asked-about state.
pub fn filter_state_from_output(code: u32, data: &[u8; 4], state: u32) -> (r: Result<
    bool,
    PcanError,
>)
    ensures
        r == spec_output(code, spec_u32_le(data@) == state),
{
    let value = u32_from_le_bytes(data);
    match status_result(code) {
        Ok(()) => Ok(value == state),
        Err(e) => Err(e),
    }
}

/* Receive status */

/// Reading whether the channel hands received frames out.
pub trait ReceiveStatus {
    /// Whether receiving is switched on.
    fn is_receiving(&self) -> Result<bool, PcanError>;
}

/// Switching the handing out of received frames.
pub trait SetReceiveStatus {
    /// Switches receiving on or off.
    fn set_receiving(&self, status: bool) -> Result<(), PcanError>;
}

/* Frame kinds */

/// Reading whether status frames are let through.
pub trait AllowStatusFrames {
    /// Whether status frames are let through.
    fn allows_status_frames(&self) -> Result<bool, PcanError>;
}

/// Switching the passing of status frames.
pub trait SetAllowStatusFrames {
    /// Lets status frames through, or stops them.
    fn allow_status_frames(&self, enable: bool) -> Result<(), PcanError>;
}

/// Reading whether remote-transmission-request frames are let through.
pub trait AllowRTRFrames {
    /// Whether remote-transmission-request frames are let through.
    fn allows_rtr_frames(&self) -> Result<bool, PcanError>;
}

/// Switching the passing of remote-transmission-request frames.
pub trait SetAllowRTRFrames {
    /// Lets remote-transmission-request frames through, or stops them.
    fn allow_rtr_frames(&self, enable: bool) -> Result<(), PcanError>;
}

/// Reading whether error frames are let through.
pub trait AllowErrorFrames {
    /// Whether error frames are let through.
    fn allows_error_frames(&self) -> Result<bool, PcanError>;
}

/// Switching the passing of error frames.
pub trait SetAllowErrorFrames {
    /// Lets error frames through, or stops them.
    fn allow_error_frames(&self, enable: bool) -> Result<(), PcanError>;
}

/// Reading whether the channel's own transmissions echo back.
pub trait AllowEchoFrames {
    /// Whether echo frames are let through.
    fn allows_echo_frames(&self) -> Result<bool, PcanError>;
}

/// Switching the echo of the channel's own transmissions.
pub trait SetAllowEchoFrames {
    /// Lets echo frames through, or stops them.
    fn allow_echo_frames(&self, enable: bool) -> Result<(), PcanError>;
}

/* Acceptance filters */

/// Reading the 11-bit acceptance filter.
pub trait AcceptanceFilter11Bit {
    /// Returns the acceptance mask and the acceptance code.
    fn acceptance_filter_11bit(&self) -> Result<(u32, u32), PcanError>;
}

/// Writing the 11-bit acceptance filter.
pub trait SetAcceptanceFilter11Bit {
    /// Accepts the given 11-bit identifiers.
    fn set_acceptance_filter_11bit(&self, ids: &[u32]) -> Result<(), PcanError>;
}

/// Reading the 29-bit acceptance filter.
pub trait AcceptanceFilter29Bit {
    /// Returns the acceptance mask and the acceptance code.
    fn acceptance_filter_29bit(&self) -> Result<(u32, u32), PcanError>;
}

/// Writing the 29-bit acceptance filter.
pub trait SetAcceptanceFilter29Bit {
    /// Accepts the given 29-bit identifiers.
    fn set_acceptance_filter_29bit(&self, ids: &[u32]) -> Result<(), PcanError>;
}

/// The acceptance code of a list of identifiers: the conjunction of all the
/// identifiers, each clipped to `width`, starting from all ones.
pub open spec fn spec_acceptance_code(ids: Seq<u32>, width: u32) -> u32
    decreases ids.len(),
{
    if ids.len() == 0 {
        0xFF_FF_FF_FFu32
    } else {
        spec_acceptance_code(ids.drop_last(), width) & (ids.last() & width)
    }
}

/// The acceptance mask of a list of identifiers: the exclusive or of all
/// the identifiers, each clipped to `width`, starting from zero.
pub open spec fn spec_acceptance_mask(ids: Seq<u32>, width: u32) -> u32
    decreases ids.len(),
{
    if ids.len() == 0 {
        0u32
    } else {
        spec_acceptance_mask(ids.drop_last(), width) ^ (ids.last() & width)
    }
}

/// Folds a list of identifiers into its acceptance code under `width`.
fn acceptance_code(ids: &[u32], width: u32) -> (r: u32)
    ensures
        r == spec_acceptance_code(ids@, width),
{
    let mut acc: u32 = 0xFF_FF_FF_FF;
    let mut i: usize = 0;
    while i < ids.len()
        invariant
            i <= ids@.len(),
            acc == spec_acceptance_code(ids@.subrange(0, i as int), width),
        decreases ids@.len() - i,
    {
        proof {
            assert(ids@.subrange(0, i + 1).drop_last() =~= ids@.subrange(0, i as int));
            assert(ids@.subrange(0, i + 1).last() == ids@[i as int]);
        }
        acc = acc & (ids[i] & width);
        i += 1;
    }
    proof {
        assert(ids@.subrange(0, ids@.len() as int) =~= ids@);
    }
    acc
}

/// Folds a list of identifiers into its acceptance mask under `width`.
fn acceptance_mask(ids: &[u32], width: u32) -> (r: u32)
    ensures
        r == spec_acceptance_mask(ids@, width),
{
    let mut acc: u32 = 0;
    let mut i: usize = 0;
    while i < ids.len()
        invariant
            i <= ids@.len(),
            acc == spec_acceptance_mask(ids@.subrange(0, i as int), width),
        decreases ids@.len() - i,
    {
        proof {
            assert(ids@.subrange(0, i + 1).drop_last() =~= ids@.subrange(0, i as int));
            assert(ids@.subrange(0, i + 1).last() == ids@[i as int]);
        }
        acc = acc ^ (ids[i] & width);
        i += 1;
    }
    proof {
        assert(ids@.subrange(0, ids@.len() as int) =~= ids@);
    }
    acc
}

/// Packs an acceptance mask and code into the driver's 8-byte filter
/// buffer, mask in the low half.
fn acceptance_filter_buffer(mask: u32, code: u32) -> (r: [u8; 8])
    ensures
        r@.subrange(0, 4) == spec_u32_le_bytes(mask),
        r@.subrange(4, 8) == spec_u32_le_bytes(code),
{
    let mask_bytes = u32_to_le_bytes(mask);
    let code_bytes = u32_to_le_bytes(code);
    let r = [
        mask_bytes[0],
        mask_bytes[1],
        mask_bytes[2],
        mask_bytes[3],
        code_bytes[0],
        code_bytes[1],
        code_bytes[2],
        code_bytes[3],
    ];
    proof {
        assert(r@.subrange(0, 4) =~= mask_bytes@);
        assert(r@.subrange(4, 8) =~= code_bytes@);
    }
    r
}

/// Builds the filter buffer that accepts the given 11-bit identifiers.
pub fn acceptance_filter_11bit_buffer(ids: &[u32]) -> (r: [u8; 8])
    ensures
        r@.subrange(0, 4) == spec_u32_le_bytes(spec_acceptance_mask(ids@, STANDARD_MASK)),
        r@.subrange(4, 8) == spec_u32_le_bytes(spec_acceptance_code(ids@, STANDARD_MASK)),
{
    let code = acceptance_code(ids, STANDARD_MASK);
    let mask = acceptance_mask(ids, STANDARD_MASK);
    acceptance_filter_buffer(mask, code)
}

/// Builds the filter buffer that accepts the given 29-bit identifiers.
pub fn acceptance_filter_29bit_buffer(ids: &[u32]) -> (r: [u8; 8])
    ensures
        r@.subrange(0, 4) == spec_u32_le_bytes(spec_acceptance_mask(ids@, EXTENDED_MASK)),
        r@.subrange(4, 8) == spec_u32_le_bytes(spec_acceptance_code(ids@, EXTENDED_MASK)),
{
    let code = acceptance_code(ids, EXTENDED_MASK);
    let mask = acceptance_mask(ids, EXTENDED_MASK);
    acceptance_filter_buffer(mask, code)
}

} // verus!
