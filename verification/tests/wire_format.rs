use procwire_client::protocol::flags;
use procwire_client::protocol::{
    decode_header, encode_header, encode_header_into, validate_header, Header, ABORT_METHOD_ID,
    AUTH_METHOD_ID, DEFAULT_MAX_PAYLOAD_SIZE, HEADER_SIZE,
};

#[test]
fn test_header_encode_decode_roundtrip() {
    let original = Header::new(1, flags::RESPONSE, 42, 100);
    let encoded = original.encode();
    let decoded = Header::decode(&encoded).unwrap();
    assert_eq!(original, decoded);
}

#[test]
fn test_header_big_endian_byte_order() {
    let header = Header::new(0x0102, 0x03, 0x04050607, 0x08090A0B);
    let bytes = header.encode();

    assert_eq!(bytes[0], 0x01);
    assert_eq!(bytes[1], 0x02);
    assert_eq!(bytes[2], 0x03);
    assert_eq!(bytes[3], 0x04);
    assert_eq!(bytes[4], 0x05);
    assert_eq!(bytes[5], 0x06);
    assert_eq!(bytes[6], 0x07);
    assert_eq!(bytes[7], 0x08);
    assert_eq!(bytes[8], 0x09);
    assert_eq!(bytes[9], 0x0A);
    assert_eq!(bytes[10], 0x0B);
}

#[test]
fn test_header_size_is_exactly_11() {
    assert_eq!(HEADER_SIZE, 11);
    let header = Header::new(1, 0, 1, 0);
    assert_eq!(header.encode().len(), 11);
}

#[test]
fn test_decode_too_short_buffer() {
    let buf = [0u8; 10];
    assert!(Header::decode(&buf).is_none());
}

#[test]
fn test_validate_method_id_zero_rejected() {
    let header = Header::new(0, 0, 1, 0);
    let result = header.validate(DEFAULT_MAX_PAYLOAD_SIZE);
    assert!(result.is_err());
    assert!(result
        .unwrap_err()
        .to_string()
        .contains("Method ID 0 is reserved"));
}

#[test]
fn test_validate_method_id_abort_allowed() {
    let header = Header::new(ABORT_METHOD_ID, 0, 0, 0);
    let result = header.validate(DEFAULT_MAX_PAYLOAD_SIZE);
    assert!(result.is_ok());
    assert!(header.is_abort());
}

#[test]
fn test_validate_payload_too_large() {
    let header = Header::new(1, 0, 1, 1_000_000);
    let result = header.validate(100);
    assert!(result.is_err());
    assert!(result.unwrap_err().to_string().contains("exceeds maximum"));
}

#[test]
fn test_validate_reserved_bits_must_be_zero() {
    let header = Header::new(1, 0b1000_0000, 1, 0);
    let result = header.validate(DEFAULT_MAX_PAYLOAD_SIZE);
    assert!(result.is_err());
    assert!(result
        .unwrap_err()
        .to_string()
        .contains("Reserved flag bits"));
}

#[test]
fn test_flags_has_flag() {
    assert!(flags::has_flag(flags::RESPONSE, flags::DIRECTION_TO_PARENT));
    assert!(flags::has_flag(flags::RESPONSE, flags::IS_RESPONSE));
    assert!(!flags::has_flag(flags::RESPONSE, flags::IS_ERROR));
}

#[test]
fn test_flag_combinations() {
    assert_eq!(flags::RESPONSE, 0x03);
    assert_eq!(flags::ERROR_RESPONSE, 0x07);
    assert_eq!(flags::STREAM_CHUNK, 0x0B);
    assert_eq!(flags::STREAM_END_RESPONSE, 0x1B);
    assert_eq!(flags::ACK_RESPONSE, 0x23);
}

#[test]
fn test_header_accessors() {
    let header = Header::new(1, flags::STREAM_END_RESPONSE, 0, 0);

    assert!(header.is_response());
    assert!(header.is_stream());
    assert!(header.is_stream_end());
    assert!(header.is_to_parent());
    assert!(header.is_event());
    assert!(!header.is_error());
    assert!(!header.is_ack());
    assert!(!header.is_abort());
}

#[test]
fn test_min_max_values() {
    let min_header = Header::new(1, 0, 0, 0);
    assert!(min_header.validate(DEFAULT_MAX_PAYLOAD_SIZE).is_ok());

    let max_header = Header::new(0xFFFE, 0, u32::MAX, u32::MAX);
    assert!(max_header.validate(u32::MAX).is_ok());
}

#[test]
fn test_encode_into() {
    let header = Header::new(1, flags::RESPONSE, 42, 100);
    let mut buf = [0u8; HEADER_SIZE];
    header.encode_into(&mut buf);

    let decoded = Header::decode(&buf).unwrap();
    assert_eq!(header, decoded);
}

#[test]
fn test_standalone_functions() {
    let header = Header::new(1, 0, 1, 0);

    let encoded = encode_header(&header);
    let decoded = decode_header(&encoded).unwrap();
    assert_eq!(header, decoded);

    let mut buf = [0u8; HEADER_SIZE];
    encode_header_into(&mut buf, &header);
    assert_eq!(buf, encoded);

    assert!(validate_header(&header, DEFAULT_MAX_PAYLOAD_SIZE).is_ok());
}

#[test]
fn encode_into_keeps_trailing_bytes() {
    let header = Header::new(0x1234, flags::ERROR_RESPONSE, 7, 9);
    let mut buf = [0xEEu8; 14];
    header.encode_into(&mut buf);
    assert_eq!(&buf[..HEADER_SIZE], &header.encode()[..]);
    assert_eq!(&buf[HEADER_SIZE..], &[0xEE, 0xEE, 0xEE]);
}

#[test]
fn decode_then_encode_gives_bytes_back() {
    let bytes = [0xFF, 0x01, 0x1B, 0xDE, 0xAD, 0xBE, 0xEF, 0x00, 0x00, 0x01, 0x00, 0x99];
    let header = Header::decode(&bytes).unwrap();
    assert_eq!(header.method_id, 0xFF01);
    assert_eq!(header.flags, 0x1B);
    assert_eq!(header.request_id, 0xDEADBEEF);
    assert_eq!(header.payload_length, 256);
    assert_eq!(&header.encode()[..], &bytes[..HEADER_SIZE]);
}

#[test]
fn validate_reports_exact_size_message() {
    let header = Header::new(3, 0, 1, 1000);
    let err = header.validate(100).unwrap_err();
    assert_eq!(err.to_string(), "Protocol error: Payload size 1000 exceeds maximum 100");
}

#[test]
fn validate_checks_method_before_size_and_flags() {
    let header = Header::new(0, 0xC0, 1, 1000);
    let err = header.validate(100).unwrap_err();
    assert_eq!(err.to_string(), "Protocol error: Method ID 0 is reserved");
    let header = Header::new(1, 0xC0, 1, 1000);
    let err = header.validate(100).unwrap_err();
    assert_eq!(err.to_string(), "Protocol error: Payload size 1000 exceeds maximum 100");
}

#[test]
fn auth_header_is_recognised() {
    let header = Header::new(AUTH_METHOD_ID, 0, 0, 4);
    assert!(header.is_auth());
    assert!(!header.is_abort());
    assert!(header.validate(DEFAULT_MAX_PAYLOAD_SIZE).is_ok());
}

#[test]
fn stream_error_flags_value() {
    assert_eq!(flags::STREAM_ERROR_RESPONSE, 0x0F);
    assert_eq!(flags::RESERVED_MASK, 0xC0);
}
