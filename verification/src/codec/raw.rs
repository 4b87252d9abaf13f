//! Raw codec - pass-through for binary data.
//!
//! Used when payload is already serialized or is raw bytes.

use vstd::prelude::*;
use bytes::Bytes;

use crate::buffers::{bytes_as_slice, bytes_contents, bytes_copy_from_slice};

verus! {

/// Raw codec that passes bytes through without transformation.
pub struct RawCodec;

impl RawCodec {
    /// Serialize raw bytes (copies data into Bytes).
    pub fn serialize(data: &[u8]) -> (r: Bytes)
        ensures
            bytes_contents(r) == data@,
    {
        bytes_copy_from_slice(data)
    }

    /// Serialize Bytes (true zero-copy, just returns the input).
    pub fn serialize_bytes(data: Bytes) -> (r: Bytes)
        ensures
            r == data,
    {
        data
    }

    /// Deserialize - returns the input itself (zero-copy).
    pub fn deserialize(data: &[u8]) -> (r: &[u8])
        ensures
            r == data,
    {
        data
    }

    /// Deserialize Bytes - returns the held bytes as a slice (zero-copy).
    pub fn deserialize_bytes(data: &Bytes) -> (r: &[u8])
        ensures
            r@ == bytes_contents(*data),
    {
        bytes_as_slice(data)
    }
}

} // verus!
