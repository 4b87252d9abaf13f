//! Verified core of the procwire client: the binary data-plane wire format,
//! the incremental frame parser, backpressure accounting and the control-plane
//! message logic of the Procwire IPC protocol.

pub mod backpressure;
pub mod buffers;
pub mod client;
pub mod codec;
pub mod control;
pub mod error;
pub mod handler;
pub mod name_table;
pub mod numtext;
pub mod protocol;
pub mod strings;
pub mod transport;
pub mod writer;

pub use error::ProcwireError;
