//! Frame struct with typed accessors.
//!
//! Represents a complete protocol frame with header and payload.
//! Uses `bytes::Bytes` for zero-copy payload sharing.

use vstd::prelude::*;
use bytes::Bytes;

use super::flags;
use super::wire_format::{encoded, Header, ABORT_METHOD_ID, HEADER_SIZE};
use crate::buffers::{
    bytes_as_slice, bytes_contents, bytes_copy_from_slice, bytes_len,
};

verus! {

/// A complete protocol frame.
#[derive(Debug, Clone)]
pub struct Frame {
    /// Decoded header.
    pub header: Header,
    /// Payload bytes (zero-copy via `bytes::Bytes`).
    pub payload: Bytes,
}

/// The payload bytes of a frame.
pub open spec fn payload_of(f: Frame) -> Seq<u8> {
    bytes_contents(f.payload)
}

/// The wire bytes of a frame: its encoded header followed by its payload.
pub open spec fn frame_bytes(h: Header, payload: Seq<u8>) -> Seq<u8> {
    encoded(h) + payload
}

impl Frame {
    /// Create a new frame from header and payload.
    pub fn new(header: Header, payload: Bytes) -> (r: Self)
        ensures
            r.header == header,
            r.payload == payload,
    {
        Self { header, payload }
    }

    /// Create a frame from header and raw bytes (copies data).
    pub fn from_parts(header: Header, payload: &[u8]) -> (r: Self)
        ensures
            r.header == header,
            payload_of(r) == payload@,
    {
        Self { header, payload: bytes_copy_from_slice(payload) }
    }

    /// Get a reference to the payload bytes.
    pub fn payload(&self) -> (r: &[u8])
        ensures
            r@ == payload_of(*self),
    {
        bytes_as_slice(&self.payload)
    }

    /// Get a clone of the payload as Bytes (cheap, zero-copy).
    pub fn payload_bytes(&self) -> (r: Bytes)
        ensures
            bytes_contents(r) == payload_of(*self),
    {
        self.payload.clone()
    }

    /// Get the payload length.
    pub fn payload_len(&self) -> (r: usize)
        ensures
            r == payload_of(*self).len(),
    {
        bytes_len(&self.payload)
    }

    /// Get the method ID.
    pub fn method_id(&self) -> (r: u16)
        ensures
            r == self.header.method_id,
    {
        self.header.method_id
    }

    /// Get the flags byte.
    pub fn flags(&self) -> (r: u8)
        ensures
            r == self.header.flags,
    {
        self.header.flags
    }

    /// Get the request ID.
    pub fn request_id(&self) -> (r: u32)
        ensures
            r == self.header.request_id,
    {
        self.header.request_id
    }

    /// Check if this is a response.
    pub fn is_response(&self) -> (r: bool)
        ensures
            r == flags::spec_has_flag(self.header.flags, flags::IS_RESPONSE),
    {
        flags::has_flag(self.header.flags, flags::IS_RESPONSE)
    }

    /// Check if this is an error response.
    pub fn is_error(&self) -> (r: bool)
        ensures
            r == flags::spec_has_flag(self.header.flags, flags::IS_ERROR),
    {
        flags::has_flag(self.header.flags, flags::IS_ERROR)
    }

    /// Check if this is a stream chunk.
    pub fn is_stream(&self) -> (r: bool)
        ensures
            r == flags::spec_has_flag(self.header.flags, flags::IS_STREAM),
    {
        flags::has_flag(self.header.flags, flags::IS_STREAM)
    }

    /// Check if this is the final stream chunk.
    pub fn is_stream_end(&self) -> (r: bool)
        ensures
            r == flags::spec_has_flag(self.header.flags, flags::STREAM_END),
    {
        flags::has_flag(self.header.flags, flags::STREAM_END)
    }

    /// Check if this is an ACK.
    pub fn is_ack(&self) -> (r: bool)
        ensures
            r == flags::spec_has_flag(self.header.flags, flags::IS_ACK),
    {
        flags::has_flag(self.header.flags, flags::IS_ACK)
    }

    /// Check if direction is to parent.
    pub fn is_to_parent(&self) -> (r: bool)
        ensures
            r == flags::spec_has_flag(self.header.flags, flags::DIRECTION_TO_PARENT),
    {
        flags::has_flag(self.header.flags, flags::DIRECTION_TO_PARENT)
    }

    /// Check if this is an event (request_id == 0, not a response).
    pub fn is_event(&self) -> (r: bool)
        ensures
            r == (self.header.request_id == 0 && !flags::spec_has_flag(
                self.header.flags,
                flags::IS_RESPONSE,
            )),
    {
        self.header.request_id == 0 && !self.is_response()
    }

    /// Check if this is an abort signal.
    pub fn is_abort(&self) -> (r: bool)
        ensures
            r == (self.header.method_id == ABORT_METHOD_ID),
    {
        self.header.is_abort()
    }
}

/// Build a complete frame as a single byte vector: the encoded header
/// followed by the payload.
pub fn build_frame(header: &Header, payload: &[u8]) -> (r: Vec<u8>)
    ensures
        r@ == frame_bytes(*header, payload@),
{
    let mut buf: Vec<u8> = Vec::with_capacity(HEADER_SIZE.saturating_add(payload.len()));
    let head = header.encode();
    buf.extend_from_slice(head.as_slice());
    buf.extend_from_slice(payload);
    assert(buf@ =~= frame_bytes(*header, payload@));
    buf
}

/// Build frame parts for scatter/gather I/O: the encoded header and the
/// payload itself (not copied).
pub fn build_frame_parts<'a>(header: &Header, payload: &'a [u8]) -> (r: (
    [u8; HEADER_SIZE],
    &'a [u8],
))
    ensures
        r.0@ == encoded(*header),
        r.1 == payload,
{
    (header.encode(), payload)
}

} // verus!
