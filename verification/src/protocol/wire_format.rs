//! Wire format encoding and decoding.
//!
//! Implements the 11-byte header format:
//! ```text
//! ┌──────────┬───────┬──────────┬──────────┐
//! │ Method ID│ Flags │ Req ID   │ Length   │
//! │ 2 bytes  │ 1 byte│ 4 bytes  │ 4 bytes  │
//! │ uint16 BE│       │ uint32 BE│ uint32 BE│
//! └──────────┴───────┴──────────┴──────────┘
//! ```
//!
//! All multi-byte integers are Big Endian.

use vstd::prelude::*;

use super::flags;
use crate::error::ProcwireError;
use crate::numtext::{decimal, u32_decimal};

verus! {

/// Header size in bytes (fixed, exactly 11).
pub const HEADER_SIZE: usize = 11;

/// Default maximum payload size (1 GB).
pub const DEFAULT_MAX_PAYLOAD_SIZE: u32 = 1_073_741_824;

/// Absolute maximum payload size (~2 GB, max i32).
pub const ABSOLUTE_MAX_PAYLOAD_SIZE: u32 = 2_147_483_647;

/// Reserved method ID for ABORT signal.
pub const ABORT_METHOD_ID: u16 = 0xFFFF;

/// Reserved method ID of the data-plane AUTH frame.
pub const AUTH_METHOD_ID: u16 = 0xFFFE;

/// Reserved method ID (never use).
pub const RESERVED_METHOD_ID: u16 = 0;

/// Header pool size for ring buffer optimization.
pub const HEADER_POOL_SIZE: usize = 16;

/// Decoded header from wire format.
#[derive(Debug, Clone, Copy, PartialEq, Eq, Structural)]
pub struct Header {
    /// Method identifier (1-65534, 0 reserved, 0xFFFF = abort).
    pub method_id: u16,
    /// Flags byte (see `flags` module).
    pub flags: u8,
    /// Request identifier (0 = event/fire-and-forget).
    pub request_id: u32,
    /// Payload length in bytes.
    pub payload_length: u32,
}

/// Big-endian bytes of a 16-bit value.
pub open spec fn be16_bytes(x: u16) -> Seq<u8> {
    seq![(x / 0x100) as u8, (x % 0x100) as u8]
}

/// Big-endian bytes of a 32-bit value.
pub open spec fn be32_bytes(x: u32) -> Seq<u8> {
    seq![
        (x / 0x1000000) as u8,
        (x / 0x10000 % 0x100) as u8,
        (x / 0x100 % 0x100) as u8,
        (x % 0x100) as u8,
    ]
}

/// The value of two big-endian bytes.
pub open spec fn be16_value(b0: u8, b1: u8) -> u16 {
    (b0 * 0x100 + b1) as u16
}

/// The value of four big-endian bytes.
pub open spec fn be32_value(b0: u8, b1: u8, b2: u8, b3: u8) -> u32 {
    (b0 * 0x1000000 + b1 * 0x10000 + b2 * 0x100 + b3) as u32
}

/// The 11 wire bytes of a header.
pub open spec fn encoded(h: Header) -> Seq<u8> {
    be16_bytes(h.method_id) + seq![h.flags] + be32_bytes(h.request_id) + be32_bytes(
        h.payload_length,
    )
}

/// The header that the first 11 bytes of `b` encode.
pub open spec fn decoded(b: Seq<u8>) -> Header
    recommends
        b.len() >= HEADER_SIZE,
{
    Header {
        method_id: be16_value(b[0], b[1]),
        flags: b[2],
        request_id: be32_value(b[3], b[4], b[5], b[6]),
        payload_length: be32_value(b[7], b[8], b[9], b[10]),
    }
}

/// Whether a header complies with the protocol for a given payload limit:
/// method ID not reserved, payload within the limit, reserved flag bits clear.
pub open spec fn header_valid(h: Header, max_payload_size: u32) -> bool {
    &&& h.method_id != RESERVED_METHOD_ID
    &&& h.payload_length <= max_payload_size
    &&& h.flags & flags::RESERVED_MASK == 0
}

/// The message of a payload-size violation.
pub open spec fn size_message(payload_length: u32, max_payload_size: u32) -> Seq<char> {
    "Payload size "@ + decimal(payload_length as nat) + " exceeds maximum "@ + decimal(
        max_payload_size as nat,
    )
}

/// The message of the first check that an invalid header fails.
pub open spec fn validation_message(h: Header, max_payload_size: u32) -> Seq<char> {
    if h.method_id == RESERVED_METHOD_ID {
        "Method ID 0 is reserved"@
    } else if h.payload_length > max_payload_size {
        size_message(h.payload_length, max_payload_size)
    } else {
        "Reserved flag bits must be 0"@
    }
}

/// The result of validating a header, as `validate` returns it.
pub open spec fn validation_result(
    r: Result<(), ProcwireError>,
    h: Header,
    max_payload_size: u32,
) -> bool {
    &&& (r is Ok <==> header_valid(h, max_payload_size))
    &&& (!header_valid(h, max_payload_size) ==> (r matches Err(ProcwireError::Protocol(m))
        && m@ == validation_message(h, max_payload_size)))
}

/// Decoding the encoding of a header gives the header back.
pub proof fn lemma_decode_encode(h: Header)
    ensures
        encoded(h).len() == HEADER_SIZE,
        decoded(encoded(h)) == h,
{
    let e = encoded(h);
    assert(e.len() == 11);
    let m = h.method_id;
    assert(be16_value(e[0], e[1]) == m) by (nonlinear_arith)
        requires
            e[0] == (m / 0x100) as u8,
            e[1] == (m % 0x100) as u8,
    ;
    lemma_be32_roundtrip(h.request_id, e[3], e[4], e[5], e[6]);
    lemma_be32_roundtrip(h.payload_length, e[7], e[8], e[9], e[10]);
}

proof fn lemma_be32_roundtrip(x: u32, b0: u8, b1: u8, b2: u8, b3: u8)
    requires
        b0 == (x / 0x1000000) as u8,
        b1 == (x / 0x10000 % 0x100) as u8,
        b2 == (x / 0x100 % 0x100) as u8,
        b3 == (x % 0x100) as u8,
    ensures
        be32_value(b0, b1, b2, b3) == x,
{
    assert(be32_value(b0, b1, b2, b3) == x) by (nonlinear_arith)
        requires
            b0 == (x / 0x1000000) as u8,
            b1 == (x / 0x10000 % 0x100) as u8,
            b2 == (x / 0x100 % 0x100) as u8,
            b3 == (x % 0x100) as u8,
    ;
}

/// Encoding the header decoded from at least 11 bytes gives those 11 bytes
/// back.
pub proof fn lemma_encode_decode(b: Seq<u8>)
    requires
        b.len() >= HEADER_SIZE,
    ensures
        encoded(decoded(b)) == b.take(HEADER_SIZE as int),
{
    let h = decoded(b);
    let (b0, b1) = (b[0], b[1]);
    assert(be16_bytes(be16_value(b0, b1)) == seq![b0, b1]) by {
        let v = be16_value(b0, b1);
        assert((v / 0x100) as u8 == b0 && (v % 0x100) as u8 == b1) by (nonlinear_arith)
            requires
                v == (b0 * 0x100 + b1) as u16,
                b0 < 0x100,
                b1 < 0x100,
        ;
    }
    lemma_be32_bytes_of_value(b[3], b[4], b[5], b[6]);
    lemma_be32_bytes_of_value(b[7], b[8], b[9], b[10]);
    assert(encoded(h) =~= b.take(HEADER_SIZE as int));
}

proof fn lemma_be32_bytes_of_value(b0: u8, b1: u8, b2: u8, b3: u8)
    ensures
        be32_bytes(be32_value(b0, b1, b2, b3)) == seq![b0, b1, b2, b3],
{
    let v = be32_value(b0, b1, b2, b3);
    assert((v / 0x1000000) as u8 == b0 && (v / 0x10000 % 0x100) as u8 == b1 && (v / 0x100
        % 0x100) as u8 == b2 && (v % 0x100) as u8 == b3) by (nonlinear_arith)
        requires
            v == (b0 * 0x1000000 + b1 * 0x10000 + b2 * 0x100 + b3) as u32,
            b0 < 0x100,
            b1 < 0x100,
            b2 < 0x100,
            b3 < 0x100,
    ;
    assert(be32_bytes(v) =~= seq![b0, b1, b2, b3]);
}

impl Header {
    /// Create a new header.
    pub fn new(method_id: u16, flags: u8, request_id: u32, payload_length: u32) -> (r: Self)
        ensures
            r == (Header { method_id, flags, request_id, payload_length }),
    {
        Self { method_id, flags, request_id, payload_length }
    }

    /// Encode header to bytes (Big Endian).
    pub fn encode(&self) -> (r: [u8; HEADER_SIZE])
        ensures
            r@ == encoded(*self),
    {
        let m = self.method_id;
        let q = self.request_id;
        let p = self.payload_length;
        let r: [u8; HEADER_SIZE] = [
            (m / 0x100) as u8,
            (m % 0x100) as u8,
            self.flags,
            (q / 0x1000000) as u8,
            (q / 0x10000 % 0x100) as u8,
            (q / 0x100 % 0x100) as u8,
            (q % 0x100) as u8,
            (p / 0x1000000) as u8,
            (p / 0x10000 % 0x100) as u8,
            (p / 0x100 % 0x100) as u8,
            (p % 0x100) as u8,
        ];
        assert(r@ =~= encoded(*self));
        r
    }

    /// Encode header into an existing buffer; the bytes after the first 11
    /// are left as they were.
    ///
    /// The buffer must hold at least `HEADER_SIZE` (11) bytes.
    pub fn encode_into(&self, buf: &mut [u8])
        requires
            old(buf)@.len() >= HEADER_SIZE,
        ensures
            final(buf)@ == encoded(*self) + old(buf)@.skip(HEADER_SIZE as int),
    {
        let bytes = self.encode();
        let mut i: usize = 0;
        while i < HEADER_SIZE
            invariant
                i <= HEADER_SIZE,
                bytes@ == encoded(*self),
                buf@.len() == old(buf)@.len(),
                old(buf)@.len() >= HEADER_SIZE,
                forall|j: int| 0 <= j < i ==> buf@[j] == bytes@[j],
                forall|j: int| i <= j < buf@.len() ==> buf@[j] == old(buf)@[j],
            decreases HEADER_SIZE - i,
        {
            buf[i] = bytes[i];
            i = i + 1;
        }
        assert(buf@ =~= encoded(*self) + old(buf)@.skip(HEADER_SIZE as int));
    }

    /// Decode header from bytes (Big Endian).
    ///
    /// Returns `None` if buffer is too short.
    pub fn decode(buf: &[u8]) -> (r: Option<Self>)
        ensures
            r is None <==> buf@.len() < HEADER_SIZE,
            r matches Some(h) ==> h == decoded(buf@),
    {
        if buf.len() < HEADER_SIZE {
            return None;
        }
        let method_id: u16 = (buf[0] as u16) * 0x100 + (buf[1] as u16);
        let request_id: u32 = (buf[3] as u32) * 0x1000000 + (buf[4] as u32) * 0x10000 + (
        buf[5] as u32) * 0x100 + (buf[6] as u32);
        let payload_length: u32 = (buf[7] as u32) * 0x1000000 + (buf[8] as u32) * 0x10000 + (
        buf[9] as u32) * 0x100 + (buf[10] as u32);
        Some(Self { method_id, flags: buf[2], request_id, payload_length })
    }

    /// Validate the header for protocol compliance.
    ///
    /// Checks, in order:
    /// - Method ID is not 0 (reserved)
    /// - Payload length doesn't exceed max
    /// - Reserved flag bits are 0
    pub fn validate(&self, max_payload_size: u32) -> (r: Result<(), ProcwireError>)
        ensures
            validation_result(r, *self, max_payload_size),
    {
        if self.method_id == RESERVED_METHOD_ID {
            return Err(ProcwireError::Protocol(String::from_str("Method ID 0 is reserved")));
        }
        if self.payload_length > max_payload_size {
            return Err(
                ProcwireError::Protocol(payload_size_error_text(self.payload_length, max_payload_size)),
            );
        }
        if self.flags & flags::RESERVED_MASK != 0 {
            return Err(ProcwireError::Protocol(String::from_str("Reserved flag bits must be 0")));
        }
        Ok(())
    }

    /// Check if this is an abort signal.
    pub fn is_abort(&self) -> (r: bool)
        ensures
            r == (self.method_id == ABORT_METHOD_ID),
    {
        self.method_id == ABORT_METHOD_ID
    }

    /// Check if this is an AUTH frame header.
    pub fn is_auth(&self) -> (r: bool)
        ensures
            r == (self.method_id == AUTH_METHOD_ID),
    {
        self.method_id == AUTH_METHOD_ID
    }

    /// Check if this is a response.
    pub fn is_response(&self) -> (r: bool)
        ensures
            r == flags::spec_has_flag(self.flags, flags::IS_RESPONSE),
    {
        flags::has_flag(self.flags, flags::IS_RESPONSE)
    }

    /// Check if this is an error response.
    pub fn is_error(&self) -> (r: bool)
        ensures
            r == flags::spec_has_flag(self.flags, flags::IS_ERROR),
    {
        flags::has_flag(self.flags, flags::IS_ERROR)
    }

    /// Check if this is a stream chunk.
    pub fn is_stream(&self) -> (r: bool)
        ensures
            r == flags::spec_has_flag(self.flags, flags::IS_STREAM),
    {
        flags::has_flag(self.flags, flags::IS_STREAM)
    }

    /// Check if this is the final stream chunk.
    pub fn is_stream_end(&self) -> (r: bool)
        ensures
            r == flags::spec_has_flag(self.flags, flags::STREAM_END),
    {
        flags::has_flag(self.flags, flags::STREAM_END)
    }

    /// Check if this is an ACK.
    pub fn is_ack(&self) -> (r: bool)
        ensures
            r == flags::spec_has_flag(self.flags, flags::IS_ACK),
    {
        flags::has_flag(self.flags, flags::IS_ACK)
    }

    /// Check if direction is to parent.
    pub fn is_to_parent(&self) -> (r: bool)
        ensures
            r == flags::spec_has_flag(self.flags, flags::DIRECTION_TO_PARENT),
    {
        flags::has_flag(self.flags, flags::DIRECTION_TO_PARENT)
    }

    /// Check if this is an event (request_id == 0).
    pub fn is_event(&self) -> (r: bool)
        ensures
            r == (self.request_id == 0),
    {
        self.request_id == 0
    }
}

/// The message "Payload size {len} exceeds maximum {max}".
fn payload_size_error_text(payload_length: u32, max_payload_size: u32) -> (r: String)
    ensures
        r@ == size_message(payload_length, max_payload_size),
{
    let mut s = String::from_str("Payload size ");
    let a = u32_decimal(payload_length);
    s.append(a.as_str());
    s.append(" exceeds maximum ");
    let b = u32_decimal(max_payload_size);
    s.append(b.as_str());
    s
}

/// Encode a header to bytes (standalone function).
pub fn encode_header(header: &Header) -> (r: [u8; HEADER_SIZE])
    ensures
        r@ == encoded(*header),
{
    header.encode()
}

/// Encode a header into an existing buffer (standalone function).
pub fn encode_header_into(buf: &mut [u8], header: &Header)
    requires
        old(buf)@.len() >= HEADER_SIZE,
    ensures
        final(buf)@ == encoded(*header) + old(buf)@.skip(HEADER_SIZE as int),
{
    header.encode_into(buf);
}

/// Decode a header from bytes (standalone function).
pub fn decode_header(buf: &[u8]) -> (r: Option<Header>)
    ensures
        r is None <==> buf@.len() < HEADER_SIZE,
        r matches Some(h) ==> h == decoded(buf@),
{
    Header::decode(buf)
}

/// Validate a header for protocol compliance (standalone function).
pub fn validate_header(header: &Header, max_payload_size: u32) -> (r: Result<(), ProcwireError>)
    ensures
        validation_result(r, *header, max_payload_size),
{
    header.validate(max_payload_size)
}

} // verus!
