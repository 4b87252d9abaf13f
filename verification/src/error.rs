//! Error type shared by the library.

use vstd::prelude::*;
use crate::numtext::{decimal, u32_decimal};

verus! {

/// `std::io::Error`, carried through opaquely.
#[verifier::external_type_specification]
#[verifier::external_body]
pub struct ExIoError(std::io::Error);

/// `serde_json::Error`, carried through opaquely.
#[verifier::external_type_specification]
#[verifier::external_body]
pub struct ExJsonError(serde_json::Error);

/// `rmp_serde::encode::Error`, carried through opaquely.
#[verifier::external_type_specification]
#[verifier::external_body]
pub struct ExMsgPackEncodeError(rmp_serde::encode::Error);

/// `rmp_serde::decode::Error`, carried through opaquely.
#[verifier::external_type_specification]
#[verifier::external_body]
pub struct ExMsgPackDecodeError(rmp_serde::decode::Error);

/// Main error type for all procwire operations.
#[derive(Debug)]
pub enum ProcwireError {
    /// I/O error during pipe/socket operations.
    Io(std::io::Error),
    /// JSON serialization/deserialization error (control plane only).
    Json(serde_json::Error),
    /// MsgPack serialization error.
    MsgPackEncode(rmp_serde::encode::Error),
    /// MsgPack deserialization error.
    MsgPackDecode(rmp_serde::decode::Error),
    /// Protocol error (invalid frame, wrong flags, etc.).
    Protocol(String),
    /// Handler not found for the given method ID.
    HandlerNotFound(u16),
    /// Connection closed unexpectedly.
    ConnectionClosed,
    /// Backpressure timeout - write buffer full.
    BackpressureTimeout,
    /// A terminal response (`respond`/`ack`/`end`/`error`) was already sent
    /// for this request.
    ResponseAlreadySent,
}

/// Result type alias using ProcwireError.
pub type Result<T> = std::result::Result<T, ProcwireError>;

/// The message text of the variants that carry no outside error.
pub open spec fn own_message(e: ProcwireError) -> Seq<char> {
    match e {
        ProcwireError::Protocol(m) => "Protocol error: "@ + m@,
        ProcwireError::HandlerNotFound(id) => "Handler not found for method ID: "@ + decimal(id as nat),
        ProcwireError::ConnectionClosed => "Connection closed"@,
        ProcwireError::BackpressureTimeout => "Backpressure timeout"@,
        ProcwireError::ResponseAlreadySent => "Response already sent"@,
        _ => Seq::empty(),
    }
}

/// Whether the error wraps an outside error type.
pub open spec fn wraps_outside_error(e: ProcwireError) -> bool {
    e is Io || e is Json || e is MsgPackEncode || e is MsgPackDecode
}

impl ProcwireError {
    /// Human-readable message of the error.
    pub fn to_string(&self) -> (r: String)
        ensures
            !wraps_outside_error(*self) ==> r@ == own_message(*self),
            *self is Io ==> exists|m: Seq<char>| r@ == "I/O error: "@ + m,
            *self is Json ==> exists|m: Seq<char>| r@ == "JSON error: "@ + m,
            *self is MsgPackEncode ==> exists|m: Seq<char>| r@ == "MsgPack encode error: "@ + m,
            *self is MsgPackDecode ==> exists|m: Seq<char>| r@ == "MsgPack decode error: "@ + m,
    {
        match self {
            ProcwireError::Io(e) => {
                let mut s = String::from_str("I/O error: ");
                let inner = e.to_string();
                s.append(inner.as_str());
                s
            },
            ProcwireError::Json(e) => {
                let mut s = String::from_str("JSON error: ");
                let inner = e.to_string();
                s.append(inner.as_str());
                s
            },
            ProcwireError::MsgPackEncode(e) => {
                let mut s = String::from_str("MsgPack encode error: ");
                let inner = e.to_string();
                s.append(inner.as_str());
                s
            },
            ProcwireError::MsgPackDecode(e) => {
                let mut s = String::from_str("MsgPack decode error: ");
                let inner = e.to_string();
                s.append(inner.as_str());
                s
            },
            ProcwireError::Protocol(m) => {
                let mut s = String::from_str("Protocol error: ");
                s.append(m.as_str());
                s
            },
            ProcwireError::HandlerNotFound(id) => {
                let mut s = String::from_str("Handler not found for method ID: ");
                let digits = u32_decimal(*id as u32);
                s.append(digits.as_str());
                s
            },
            ProcwireError::ConnectionClosed => String::from_str("Connection closed"),
            ProcwireError::BackpressureTimeout => String::from_str("Backpressure timeout"),
            ProcwireError::ResponseAlreadySent => String::from_str("Response already sent"),
        }
    }
}

} // verus!
