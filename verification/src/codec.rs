//! Codec module - serialization/deserialization for payloads.
//!
//! - [`RawCodec`] - Pass-through for raw bytes (zero-copy)
//! - [`MsgPackCodec`] - MessagePack using `rmp-serde` (`to_vec_named` for
//!   Node.js compatibility)

pub mod msgpack;
pub mod raw;

pub use msgpack::MsgPackCodec;
pub use raw::RawCodec;
