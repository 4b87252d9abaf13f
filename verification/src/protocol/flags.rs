//! Flag constants for the protocol's flags byte.
//!
//! ```text
//! Bit 0: DIRECTION_TO_PARENT  (0 = to child, 1 = to parent)
//! Bit 1: IS_RESPONSE          (0 = request/event, 1 = response)
//! Bit 2: IS_ERROR             (0 = ok, 1 = error)
//! Bit 3: IS_STREAM            (0 = single, 1 = stream chunk)
//! Bit 4: STREAM_END           (0 = more coming, 1 = final chunk)
//! Bit 5: IS_ACK               (0 = full response, 1 = ack only)
//! Bit 6-7: reserved (must be 0)
//! ```

use vstd::prelude::*;

verus! {

/// Direction: to parent (1) or to child (0).
pub const DIRECTION_TO_PARENT: u8 = 0x01;

/// Message type: response (1) or request/event (0).
pub const IS_RESPONSE: u8 = 0x02;

/// Error flag: error (1) or ok (0).
pub const IS_ERROR: u8 = 0x04;

/// Stream flag: stream chunk (1) or single message (0).
pub const IS_STREAM: u8 = 0x08;

/// Stream end flag: final chunk (1) or more coming (0).
pub const STREAM_END: u8 = 0x10;

/// ACK flag: acknowledgment only (1) or full response (0).
pub const IS_ACK: u8 = 0x20;

/// Reserved bits mask (bits 6-7).
pub const RESERVED_MASK: u8 = 0xC0;

/// Response flags: to_parent + is_response = 0x03
pub const RESPONSE: u8 = 0x03;

/// Error response flags: to_parent + is_response + is_error = 0x07
pub const ERROR_RESPONSE: u8 = 0x07;

/// Stream chunk flags: to_parent + is_response + is_stream = 0x0B
pub const STREAM_CHUNK: u8 = 0x0B;

/// Stream end flags: to_parent + is_response + is_stream + stream_end = 0x1B
pub const STREAM_END_RESPONSE: u8 = 0x1B;

/// Stream error flags: to_parent + is_response + is_error + is_stream = 0x0F.
/// Errors of a `stream` method travel on the stream channel.
pub const STREAM_ERROR_RESPONSE: u8 = 0x0F;

/// ACK response flags: to_parent + is_response + is_ack = 0x23
pub const ACK_RESPONSE: u8 = 0x23;

/// Whether any bit of `flag` is set in `flags`.
pub open spec fn spec_has_flag(flags: u8, flag: u8) -> bool {
    flags & flag != 0
}

/// Check if a specific flag is set.
pub fn has_flag(flags: u8, flag: u8) -> (r: bool)
    ensures
        r == spec_has_flag(flags, flag),
{
    flags & flag != 0
}

/// The combined flag constants are the bitwise unions of the single flags
/// they are documented to contain.
pub proof fn lemma_flag_combinations()
    ensures
        RESPONSE == DIRECTION_TO_PARENT | IS_RESPONSE,
        ERROR_RESPONSE == DIRECTION_TO_PARENT | IS_RESPONSE | IS_ERROR,
        STREAM_CHUNK == DIRECTION_TO_PARENT | IS_RESPONSE | IS_STREAM,
        STREAM_END_RESPONSE == DIRECTION_TO_PARENT | IS_RESPONSE | IS_STREAM | STREAM_END,
        STREAM_ERROR_RESPONSE == DIRECTION_TO_PARENT | IS_RESPONSE | IS_ERROR | IS_STREAM,
        ACK_RESPONSE == DIRECTION_TO_PARENT | IS_RESPONSE | IS_ACK,
        RESERVED_MASK & (DIRECTION_TO_PARENT | IS_RESPONSE | IS_ERROR | IS_STREAM | STREAM_END
            | IS_ACK) == 0,
{
    assert(0x03u8 == 0x01u8 | 0x02u8) by (bit_vector);
    assert(0x07u8 == 0x01u8 | 0x02u8 | 0x04u8) by (bit_vector);
    assert(0x0Bu8 == 0x01u8 | 0x02u8 | 0x08u8) by (bit_vector);
    assert(0x1Bu8 == 0x01u8 | 0x02u8 | 0x08u8 | 0x10u8) by (bit_vector);
    assert(0x0Fu8 == 0x01u8 | 0x02u8 | 0x04u8 | 0x08u8) by (bit_vector);
    assert(0x23u8 == 0x01u8 | 0x02u8 | 0x20u8) by (bit_vector);
    assert(0xC0u8 & (0x01u8 | 0x02u8 | 0x04u8 | 0x08u8 | 0x10u8 | 0x20u8) == 0) by (bit_vector);
}

} // verus!
