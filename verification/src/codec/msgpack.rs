//! MsgPack codec using `rmp-serde`.
//!
//! Always uses `to_vec_named`, never `to_vec`: structs are written as maps
//! with field names, which Node.js `@msgpack/msgpack` expects.

use vstd::prelude::*;

use crate::error::ProcwireError;

verus! {

/// `rmp_serde::to_vec_named`: the MessagePack bytes of `value`, structs as
/// maps. What the bytes are is left to `rmp_serde`.
#[verifier::external_body]
fn rmp_to_vec_named<T: serde::Serialize>(value: &T) -> (r: Result<Vec<u8>, rmp_serde::encode::Error>) {
    rmp_serde::to_vec_named(value)
}

/// `rmp_serde::from_slice`: the value that `bytes` encode, or why they do
/// not. What is decoded is left to `rmp_serde`.
#[verifier::external_body]
fn rmp_from_slice<T: serde::de::DeserializeOwned>(bytes: &[u8]) -> (r: Result<T, rmp_serde::decode::Error>) {
    rmp_serde::from_slice(bytes)
}

/// Whether `bytes` is an outcome of `rmp_serde::to_vec_named(value)`: what
/// the encoder gives for the value, with nothing added or removed.
pub closed spec fn named_encoding<T: serde::Serialize>(value: &T, bytes: Vec<u8>) -> bool {
    call_ensures(rmp_to_vec_named::<T>, (value,), Ok::<Vec<u8>, rmp_serde::encode::Error>(bytes))
}

/// Whether `v` is an outcome of `rmp_serde::from_slice(bytes)`: the value
/// the decoder gives for those bytes.
pub closed spec fn slice_decoding<T: serde::de::DeserializeOwned>(bytes: Seq<u8>, v: T) -> bool {
    exists|b: &[u8]|
        b@ == bytes && #[trigger] call_ensures(
            rmp_from_slice::<T>,
            (b,),
            Ok::<T, rmp_serde::decode::Error>(v),
        )
}

/// MessagePack codec for structured data.
pub struct MsgPackCodec;

impl MsgPackCodec {
    /// Encode a value to MsgPack bytes (struct-as-map format).
    ///
    /// A failure of the encoder is reported as `MsgPackEncode`.
    pub fn encode<T: serde::Serialize>(value: &T) -> (r: Result<Vec<u8>, ProcwireError>)
        ensures
            r is Err ==> r matches Err(ProcwireError::MsgPackEncode(_)),
            r matches Ok(bytes) ==> named_encoding(value, bytes),
    {
        match rmp_to_vec_named(value) {
            Ok(bytes) => Ok(bytes),
            Err(e) => Err(ProcwireError::MsgPackEncode(e)),
        }
    }

    /// Decode MsgPack bytes to a value.
    ///
    /// A failure of the decoder is reported as `MsgPackDecode`.
    pub fn decode<T: serde::de::DeserializeOwned>(bytes: &[u8]) -> (r: Result<T, ProcwireError>)
        ensures
            r is Err ==> r matches Err(ProcwireError::MsgPackDecode(_)),
            r matches Ok(v) ==> slice_decoding(bytes@, v),
    {
        match rmp_from_slice(bytes) {
            Ok(v) => Ok(v),
            Err(e) => Err(ProcwireError::MsgPackDecode(e)),
        }
    }
}

} // verus!
