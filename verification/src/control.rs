//! Control plane: the `$init` handshake message and the reaction to the
//! newline-delimited JSON-RPC lines the parent writes to stdin.

pub mod init;
pub mod json_text;
pub mod stdin;

pub use init::{
    build_init_message, EventDef, EventSchema, InitMessage, InitParams, InitSchema, MethodDef,
    MethodSchema, ResponseType, Schema, PROTOCOL_VERSION,
};
pub use stdin::{action_for_method, parse_control_line, ControlAction, PONG_MESSAGE};
