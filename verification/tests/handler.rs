use bytes::Bytes;
use procwire_client::control::ResponseType;
use procwire_client::error::ProcwireError;
use procwire_client::handler::{
    answer_flags, answer_frame, empty_answer_frame, error_flags, is_terminal, response_header,
    terminal_gate, AnswerKind, HandlerRegistry, RawPayload, ResponseLatch,
};
use procwire_client::protocol::{flags, Header};

#[test]
fn test_register_method() {
    let mut registry: HandlerRegistry<&str> = HandlerRegistry::new();
    registry.register("echo", ResponseType::Result, "echo-handler");

    assert!(registry.get_handler("echo").is_some());
    assert_eq!(registry.get_method_id("echo"), Some(1));
    assert_eq!(registry.get_method_name(1), Some("echo"));
}

#[test]
fn test_id_assignment_sequential() {
    let mut registry: HandlerRegistry<u8> = HandlerRegistry::new();
    registry.register("method1", ResponseType::Result, 1);
    registry.register("method2", ResponseType::Result, 2);
    registry.register("method3", ResponseType::Result, 3);

    assert_eq!(registry.get_method_id("method1"), Some(1));
    assert_eq!(registry.get_method_id("method2"), Some(2));
    assert_eq!(registry.get_method_id("method3"), Some(3));
}

#[test]
fn test_register_event() {
    let mut registry: HandlerRegistry<u8> = HandlerRegistry::new();
    registry.register_event("progress");
    registry.register_event("status");

    assert_eq!(registry.get_event_id("progress"), Some(1));
    assert_eq!(registry.get_event_id("status"), Some(2));
}

#[test]
fn test_build_schema() {
    let mut registry: HandlerRegistry<u8> = HandlerRegistry::new();
    registry.register("echo", ResponseType::Result, 1);
    registry.register("generate", ResponseType::Stream, 2);
    registry.register_event("progress");

    let schema = registry.build_schema();

    assert_eq!(schema.methods.len(), 2);
    assert_eq!(schema.events.len(), 1);

    let echo = schema.get_method("echo").unwrap();
    assert_eq!(echo.id, 1);
    assert_eq!(echo.response, ResponseType::Result);

    let generate = schema.get_method("generate").unwrap();
    assert_eq!(generate.id, 2);
    assert_eq!(generate.response, ResponseType::Stream);

    let progress = schema.get_event("progress").unwrap();
    assert_eq!(progress.id, 1);
}

#[test]
fn test_handler_not_found() {
    let registry: HandlerRegistry<u8> = HandlerRegistry::new();
    assert!(registry.get_handler_by_id(99).is_none());
    assert!(registry.get_handler("nonexistent").is_none());
}

#[test]
fn test_response_type() {
    let mut registry: HandlerRegistry<u8> = HandlerRegistry::new();
    registry.register("result_method", ResponseType::Result, 1);
    registry.register("stream_method", ResponseType::Stream, 2);

    assert_eq!(
        registry.get_response_type("result_method"),
        Some(ResponseType::Result)
    );
    assert_eq!(
        registry.get_response_type("stream_method"),
        Some(ResponseType::Stream)
    );
}

#[test]
fn test_reregistration_routes_old_id_to_latest_handler() {
    let mut registry: HandlerRegistry<&str> = HandlerRegistry::new();
    registry.register("echo", ResponseType::Result, "first");
    registry.register("echo", ResponseType::Stream, "second");
    assert_eq!(registry.get_method_id("echo"), Some(2));
    assert_eq!(registry.get_handler_by_id(1), Some(&"second"));
    assert_eq!(registry.get_handler_by_id(2), Some(&"second"));
    assert_eq!(registry.get_method_name(1), Some("echo"));
    assert_eq!(registry.get_handler_by_id(0), None);
    assert_eq!(registry.get_handler_by_id(3), None);
}

#[test]
fn test_dispatch_target() {
    let mut registry: HandlerRegistry<&str> = HandlerRegistry::new();
    registry.register("echo", ResponseType::Result, "echo-handler");
    assert_eq!(*registry.dispatch_target(1).unwrap(), "echo-handler");
    match registry.dispatch_target(7) {
        Err(ProcwireError::HandlerNotFound(7)) => {}
        _ => panic!("expected HandlerNotFound(7)"),
    }
}

#[test]
fn test_error_flags_rule() {
    assert_eq!(error_flags(ResponseType::Stream), flags::STREAM_ERROR_RESPONSE);
    assert_eq!(error_flags(ResponseType::Stream), 0x0F);
    assert_eq!(error_flags(ResponseType::Result), flags::ERROR_RESPONSE);
    assert_eq!(error_flags(ResponseType::Ack), 0x07);
    assert_eq!(error_flags(ResponseType::NoResponse), 0x07);
}

#[test]
fn test_terminal_gate() {
    assert!(terminal_gate(false).is_ok());
    assert!(matches!(
        terminal_gate(true),
        Err(ProcwireError::ResponseAlreadySent)
    ));
}

#[test]
fn test_response_latch_allows_one_terminal_answer_across_clones() {
    let latch = ResponseLatch::new();
    let other = latch.clone();
    assert!(!latch.has_responded());
    assert!(latch.claim().is_ok());
    assert!(other.has_responded());
    assert!(matches!(
        other.claim(),
        Err(ProcwireError::ResponseAlreadySent)
    ));
    assert!(matches!(
        latch.claim(),
        Err(ProcwireError::ResponseAlreadySent)
    ));
}

#[test]
fn test_response_header() {
    let h = response_header(42, 123, flags::RESPONSE, 4);
    assert_eq!(h, Header::new(42, 0x03, 123, 4));
}

#[test]
fn test_raw_payload() {
    let payload = RawPayload::new(Bytes::from("hello world"));
    assert_eq!(payload.as_bytes(), b"hello world");

    let bytes = payload.into_bytes();
    assert_eq!(bytes, Bytes::from("hello world"));
}

#[test]
fn test_answer_frames() {
    let f = answer_frame(42, 7, flags::RESPONSE, Bytes::from_static(b"abc"));
    assert_eq!(f.header, Header::new(42, flags::RESPONSE, 7, 3).encode());
    assert_eq!(f.payload, Bytes::from_static(b"abc"));
    let end = empty_answer_frame(42, 7, flags::STREAM_END_RESPONSE);
    assert_eq!(end.header, Header::new(42, 0x1B, 7, 0).encode());
    assert!(end.payload.is_empty());
}

#[test]
fn test_response_type_for_id() {
    let mut registry: HandlerRegistry<u8> = HandlerRegistry::new();
    registry.register("result_method", ResponseType::Result, 1);
    registry.register("stream_method", ResponseType::Stream, 2);
    assert_eq!(registry.response_type_for_id(1), ResponseType::Result);
    assert_eq!(registry.response_type_for_id(2), ResponseType::Stream);
    assert_eq!(registry.response_type_for_id(0), ResponseType::Result);
    assert_eq!(registry.response_type_for_id(9), ResponseType::Result);
}

#[test]
fn test_answer_kinds() {
    assert_eq!(answer_flags(AnswerKind::Respond, ResponseType::Result), 0x03);
    assert_eq!(answer_flags(AnswerKind::Ack, ResponseType::Ack), 0x23);
    assert_eq!(answer_flags(AnswerKind::Chunk, ResponseType::Stream), 0x0B);
    assert_eq!(answer_flags(AnswerKind::End, ResponseType::Stream), 0x1B);
    assert_eq!(answer_flags(AnswerKind::Error, ResponseType::Stream), 0x0F);
    assert_eq!(answer_flags(AnswerKind::Error, ResponseType::Result), 0x07);
    assert!(is_terminal(AnswerKind::Respond));
    assert!(is_terminal(AnswerKind::Ack));
    assert!(is_terminal(AnswerKind::End));
    assert!(is_terminal(AnswerKind::Error));
    assert!(!is_terminal(AnswerKind::Chunk));
}
