//! The rules a request context follows when it answers a request: at most
//! one terminal response per request (shared by every handle on the
//! request), the flags of an error answer, and the header of each answer.

use std::sync::atomic::{AtomicBool, Ordering};
use std::sync::Arc;

use vstd::prelude::*;
use bytes::Bytes;

use crate::backpressure::arc_share;
use crate::buffers::{bytes_as_slice, bytes_contents, bytes_len};
use crate::control::init::ResponseType;
use crate::error::ProcwireError;
use crate::protocol::flags;
use crate::protocol::wire_format::{encoded, Header};
use crate::writer::OutboundFrame;

verus! {

/// Whether a terminal answer may still be sent: `Ok` when none was sent
/// before, `ResponseAlreadySent` otherwise.
pub fn terminal_gate(already_sent: bool) -> (r: Result<(), ProcwireError>)
    ensures
        already_sent ==> r == Err::<(), ProcwireError>(ProcwireError::ResponseAlreadySent),
        !already_sent ==> r is Ok,
{
    if already_sent {
        Err(ProcwireError::ResponseAlreadySent)
    } else {
        Ok(())
    }
}

/// The flags of an error answer: a stream method answers on the stream
/// channel (`STREAM_ERROR_RESPONSE`), any other method with
/// `ERROR_RESPONSE`.
pub fn error_flags(response_type: ResponseType) -> (r: u8)
    ensures
        response_type == ResponseType::Stream ==> r == flags::STREAM_ERROR_RESPONSE,
        response_type != ResponseType::Stream ==> r == flags::ERROR_RESPONSE,
{
    match response_type {
        ResponseType::Stream => flags::STREAM_ERROR_RESPONSE,
        _ => flags::ERROR_RESPONSE,
    }
}

/// The ways a handler answers a request.
#[derive(Debug, Clone, Copy, PartialEq, Eq, Structural)]
pub enum AnswerKind {
    /// A single response (`respond`, `respond_raw`, `respond_bytes`).
    Respond,
    /// An acknowledgment without payload (`ack`).
    Ack,
    /// One chunk of a stream (`chunk`, `chunk_raw`, `chunk_bytes`).
    Chunk,
    /// The end of a stream, without payload (`end`).
    End,
    /// An error (`error`, `error_with`).
    Error,
}

/// The flags an answer of kind `kind` carries for a method answering with
/// `response_type`.
pub open spec fn answer_flags_of(kind: AnswerKind, response_type: ResponseType) -> u8 {
    match kind {
        AnswerKind::Respond => flags::RESPONSE,
        AnswerKind::Ack => flags::ACK_RESPONSE,
        AnswerKind::Chunk => flags::STREAM_CHUNK,
        AnswerKind::End => flags::STREAM_END_RESPONSE,
        AnswerKind::Error => if response_type == ResponseType::Stream {
            flags::STREAM_ERROR_RESPONSE
        } else {
            flags::ERROR_RESPONSE
        },
    }
}

/// Law (what each answer says on the wire): every answer goes to the parent
/// as a response; it carries the error bit exactly when it is an error, the
/// stream bit exactly when it is a chunk, the end of a stream, or an error of
/// a stream method, the stream-end bit exactly when it ends a stream, the
/// ack bit exactly when it is an acknowledgment, and never a reserved bit.
/// So an error of any method that is not a stream method is a plain
/// `ERROR_RESPONSE`.
pub proof fn law_answer_flag_bits(kind: AnswerKind, response_type: ResponseType)
    ensures
        ({
            let f = answer_flags_of(kind, response_type);
            &&& f & flags::DIRECTION_TO_PARENT != 0
            &&& f & flags::IS_RESPONSE != 0
            &&& (f & flags::IS_ERROR != 0) == (kind is Error)
            &&& (f & flags::IS_STREAM != 0) == (kind is Chunk || kind is End || (kind is Error
                && response_type == ResponseType::Stream))
            &&& (f & flags::STREAM_END != 0) == (kind is End)
            &&& (f & flags::IS_ACK != 0) == (kind is Ack)
            &&& f & flags::RESERVED_MASK == 0
            &&& (kind is Error && response_type != ResponseType::Stream) ==> f
                == flags::ERROR_RESPONSE
        }),
{
    assert({
        &&& 0x03u8 & 0x01u8 != 0 && 0x03u8 & 0x02u8 != 0 && 0x03u8 & 0x04u8 == 0
        &&& 0x03u8 & 0x08u8 == 0 && 0x03u8 & 0x10u8 == 0 && 0x03u8 & 0x20u8 == 0
        &&& 0x03u8 & 0xC0u8 == 0
        &&& 0x23u8 & 0x01u8 != 0 && 0x23u8 & 0x02u8 != 0 && 0x23u8 & 0x04u8 == 0
        &&& 0x23u8 & 0x08u8 == 0 && 0x23u8 & 0x10u8 == 0 && 0x23u8 & 0x20u8 != 0
        &&& 0x23u8 & 0xC0u8 == 0
        &&& 0x0Bu8 & 0x01u8 != 0 && 0x0Bu8 & 0x02u8 != 0 && 0x0Bu8 & 0x04u8 == 0
        &&& 0x0Bu8 & 0x08u8 != 0 && 0x0Bu8 & 0x10u8 == 0 && 0x0Bu8 & 0x20u8 == 0
        &&& 0x0Bu8 & 0xC0u8 == 0
        &&& 0x1Bu8 & 0x01u8 != 0 && 0x1Bu8 & 0x02u8 != 0 && 0x1Bu8 & 0x04u8 == 0
        &&& 0x1Bu8 & 0x08u8 != 0 && 0x1Bu8 & 0x10u8 != 0 && 0x1Bu8 & 0x20u8 == 0
        &&& 0x1Bu8 & 0xC0u8 == 0
        &&& 0x0Fu8 & 0x01u8 != 0 && 0x0Fu8 & 0x02u8 != 0 && 0x0Fu8 & 0x04u8 != 0
        &&& 0x0Fu8 & 0x08u8 != 0 && 0x0Fu8 & 0x10u8 == 0 && 0x0Fu8 & 0x20u8 == 0
        &&& 0x0Fu8 & 0xC0u8 == 0
        &&& 0x07u8 & 0x01u8 != 0 && 0x07u8 & 0x02u8 != 0 && 0x07u8 & 0x04u8 != 0
        &&& 0x07u8 & 0x08u8 == 0 && 0x07u8 & 0x10u8 == 0 && 0x07u8 & 0x20u8 == 0
        &&& 0x07u8 & 0xC0u8 == 0
    }) by (bit_vector);
}

/// The flags of an answer of kind `kind` for a method answering with
/// `response_type`.
pub fn answer_flags(kind: AnswerKind, response_type: ResponseType) -> (r: u8)
    ensures
        r == answer_flags_of(kind, response_type),
{
    match kind {
        AnswerKind::Respond => flags::RESPONSE,
        AnswerKind::Ack => flags::ACK_RESPONSE,
        AnswerKind::Chunk => flags::STREAM_CHUNK,
        AnswerKind::End => flags::STREAM_END_RESPONSE,
        AnswerKind::Error => error_flags(response_type),
    }
}

/// Whether an answer of kind `kind` ends the request: every kind but a
/// stream chunk does, so at most one of them may be sent.
pub fn is_terminal(kind: AnswerKind) -> (r: bool)
    ensures
        r == !(kind is Chunk),
{
    match kind {
        AnswerKind::Chunk => false,
        _ => true,
    }
}

/// The header of an answer to request `request_id` of method `method_id`
/// with `frame_flags` and a payload of `payload_len` bytes (as the 32-bit
/// wire field holds it).
pub fn response_header(method_id: u16, request_id: u32, frame_flags: u8, payload_len: usize) -> (r:
    Header)
    ensures
        r == (Header {
            method_id,
            flags: frame_flags,
            request_id,
            payload_length: payload_len as u32,
        }),
{
    Header::new(method_id, frame_flags, request_id, payload_len as u32)
}

/// The frame answering request `request_id` of method `method_id` with
/// `frame_flags` and `payload`; its header announces the payload's length
/// (as the 32-bit wire field holds it).
pub fn answer_frame(method_id: u16, request_id: u32, frame_flags: u8, payload: Bytes) -> (r:
    OutboundFrame)
    ensures
        r.header@ == encoded(
            Header {
                method_id,
                flags: frame_flags,
                request_id,
                payload_length: bytes_contents(payload).len() as u32,
            },
        ),
        bytes_contents(r.payload) == bytes_contents(payload),
{
    let header = response_header(method_id, request_id, frame_flags, bytes_len(&payload));
    OutboundFrame::new(&header, payload)
}

/// The frame answering request `request_id` of method `method_id` with
/// `frame_flags` and no payload (an acknowledgment or the end of a stream:
/// such frames never carry a payload).
pub fn empty_answer_frame(method_id: u16, request_id: u32, frame_flags: u8) -> (r: OutboundFrame)
    ensures
        r.header@ == encoded(
            Header { method_id, flags: frame_flags, request_id, payload_length: 0 },
        ),
        bytes_contents(r.payload) == Seq::<u8>::empty(),
{
    let header = response_header(method_id, request_id, frame_flags, 0);
    OutboundFrame::empty(&header)
}

/// The "terminal answer sent" mark of one request, shared by every handle
/// on the request (clones share it).
pub struct ResponseLatch {
    sent: Arc<AtomicBool>,
}

impl ResponseLatch {
    /// The shared flag.
    pub closed spec fn shared(&self) -> Arc<AtomicBool> {
        self.sent
    }

    /// A latch on which nothing was sent yet.
    pub fn new() -> (r: Self) {
        ResponseLatch { sent: Arc::new(AtomicBool::new(false)) }
    }

    /// Whether a terminal answer was already sent on this request.
    pub fn has_responded(&self) -> bool {
        self.sent.load(Ordering::SeqCst)
    }

    /// Mark the terminal answer as sent, atomically. The mark is set even
    /// when the answer then fails to go out, so no second terminal answer
    /// can follow; the second claimant gets `ResponseAlreadySent`.
    pub fn claim(&self) -> (r: Result<(), ProcwireError>)
        ensures
            r is Err ==> r == Err::<(), ProcwireError>(ProcwireError::ResponseAlreadySent),
    {
        let previous = self.sent.swap(true, Ordering::SeqCst);
        terminal_gate(previous)
    }
}

impl Clone for ResponseLatch {
    fn clone(&self) -> (r: Self)
        ensures
            r.shared() == self.shared(),
    {
        ResponseLatch { sent: arc_share(&self.sent) }
    }
}

/// A payload handed over as a byte buffer, without copying.
pub struct RawPayload(pub Bytes);

impl RawPayload {
    /// Wrap `bytes`.
    pub fn new(bytes: Bytes) -> (r: Self)
        ensures
            bytes_contents(r.0) == bytes_contents(bytes),
    {
        RawPayload(bytes)
    }

    /// The payload bytes.
    pub fn as_bytes(&self) -> (r: &[u8])
        ensures
            r@ == bytes_contents(self.0),
    {
        bytes_as_slice(&self.0)
    }

    /// The payload buffer.
    pub fn into_bytes(self) -> (r: Bytes)
        ensures
            bytes_contents(r) == bytes_contents(self.0),
    {
        self.0
    }
}

} // verus!
