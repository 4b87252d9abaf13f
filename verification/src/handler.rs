//! Request handling: the registry that assigns method and event IDs and
//! finds the handler of an incoming request, and the rules a request
//! context follows when it answers.

pub mod context;
pub mod registry;

pub use context::{
    answer_flags, answer_frame, empty_answer_frame, error_flags, is_terminal, response_header,
    terminal_gate, AnswerKind, RawPayload, ResponseLatch,
};
pub use registry::HandlerRegistry;
