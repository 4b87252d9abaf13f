use procwire_client::protocol::flags;
use procwire_client::protocol::{build_frame, FrameBuffer, Header, HEADER_SIZE};

/// Helper to create a valid frame as bytes.
fn make_frame_bytes(method_id: u16, flags: u8, request_id: u32, payload: &[u8]) -> Vec<u8> {
    let header = Header::new(method_id, flags, request_id, payload.len() as u32);
    let mut bytes = header.encode().to_vec();
    bytes.extend_from_slice(payload);
    bytes
}

#[test]
fn test_single_complete_frame() {
    let mut buffer = FrameBuffer::new();
    let frame_bytes = make_frame_bytes(1, flags::RESPONSE, 42, b"hello");

    let frames = buffer.push(&frame_bytes).unwrap();

    assert_eq!(frames.len(), 1);
    assert_eq!(frames[0].method_id(), 1);
    assert_eq!(frames[0].request_id(), 42);
    assert_eq!(&frames[0].payload[..], b"hello");
    assert!(buffer.is_empty());
}

#[test]
fn test_multiple_frames_in_one_push() {
    let mut buffer = FrameBuffer::new();

    let frame1 = make_frame_bytes(1, 0, 1, b"first");
    let frame2 = make_frame_bytes(2, 0, 2, b"second");
    let frame3 = make_frame_bytes(3, 0, 3, b"third");

    let mut combined = Vec::new();
    combined.extend_from_slice(&frame1);
    combined.extend_from_slice(&frame2);
    combined.extend_from_slice(&frame3);

    let frames = buffer.push(&combined).unwrap();

    assert_eq!(frames.len(), 3);
    assert_eq!(frames[0].method_id(), 1);
    assert_eq!(frames[1].method_id(), 2);
    assert_eq!(frames[2].method_id(), 3);
    assert!(buffer.is_empty());
}

#[test]
fn test_fragmented_header() {
    let mut buffer = FrameBuffer::new();
    let frame_bytes = make_frame_bytes(1, 0, 42, b"test");

    let frames = buffer.push(&frame_bytes[..5]).unwrap();
    assert!(frames.is_empty());
    assert_eq!(buffer.state_name(), "WaitingForHeader");

    let frames = buffer.push(&frame_bytes[5..]).unwrap();
    assert_eq!(frames.len(), 1);
    assert_eq!(frames[0].method_id(), 1);
    assert!(buffer.is_empty());
}

#[test]
fn test_fragmented_payload() {
    let mut buffer = FrameBuffer::new();
    let payload = b"this is a longer payload that will be fragmented";
    let frame_bytes = make_frame_bytes(1, 0, 42, payload);

    let partial_len = HEADER_SIZE + 10;
    let frames = buffer.push(&frame_bytes[..partial_len]).unwrap();
    assert!(frames.is_empty());
    assert_eq!(buffer.state_name(), "WaitingForPayload");

    let frames = buffer.push(&frame_bytes[partial_len..]).unwrap();
    assert_eq!(frames.len(), 1);
    assert_eq!(&frames[0].payload[..], payload);
    assert!(buffer.is_empty());
}

#[test]
fn test_empty_payload() {
    let mut buffer = FrameBuffer::new();
    let frame_bytes = make_frame_bytes(1, 0, 42, b"");

    let frames = buffer.push(&frame_bytes).unwrap();

    assert_eq!(frames.len(), 1);
    assert!(frames[0].payload.is_empty());
    assert_eq!(frames[0].header.payload_length, 0);
}

#[test]
fn test_large_payload() {
    let mut buffer = FrameBuffer::new();
    let payload = vec![0xAB; 1024 * 1024];
    let frame_bytes = make_frame_bytes(1, 0, 42, &payload);

    let frames = buffer.push(&frame_bytes).unwrap();

    assert_eq!(frames.len(), 1);
    assert_eq!(frames[0].payload.len(), 1024 * 1024);
    assert!(frames[0].payload.iter().all(|&b| b == 0xAB));
}

#[test]
fn test_max_payload_validation() {
    let mut buffer = FrameBuffer::with_max_payload(100);

    let header = Header::new(1, 0, 42, 1000);
    let header_bytes = header.encode();

    let result = buffer.push(&header_bytes);

    assert!(result.is_err());
    assert!(result.unwrap_err().to_string().contains("exceeds maximum"));
}

#[test]
fn test_frame_with_all_header_fields() {
    let mut buffer = FrameBuffer::new();
    let frame_bytes = make_frame_bytes(0x1234, flags::STREAM_END_RESPONSE, 0xDEADBEEF, b"data");

    let frames = buffer.push(&frame_bytes).unwrap();

    assert_eq!(frames.len(), 1);
    let frame = &frames[0];
    assert_eq!(frame.method_id(), 0x1234);
    assert_eq!(frame.header.flags, flags::STREAM_END_RESPONSE);
    assert_eq!(frame.request_id(), 0xDEADBEEF);
    assert!(frame.is_stream());
    assert!(frame.is_stream_end());
}

#[test]
fn test_clear_resets_state() {
    let mut buffer = FrameBuffer::new();

    let frame_bytes = make_frame_bytes(1, 0, 42, b"test");
    buffer.push(&frame_bytes[..5]).unwrap();

    assert_eq!(buffer.state_name(), "WaitingForHeader");
    assert!(!buffer.is_empty());
    assert_eq!(buffer.len(), 5);

    buffer.push(&frame_bytes[5..HEADER_SIZE]).unwrap();
    assert_eq!(buffer.state_name(), "WaitingForPayload");

    buffer.clear();

    assert_eq!(buffer.state_name(), "WaitingForHeader");
    assert!(buffer.is_empty());
}

#[test]
fn test_mixed_complete_and_partial() {
    let mut buffer = FrameBuffer::new();

    let frame1 = make_frame_bytes(1, 0, 1, b"first");
    let frame2 = make_frame_bytes(2, 0, 2, b"second");

    let mut data = frame1.clone();
    data.extend_from_slice(&frame2[..5]);

    let frames = buffer.push(&data).unwrap();
    assert_eq!(frames.len(), 1);
    assert_eq!(frames[0].method_id(), 1);
    assert_eq!(buffer.state_name(), "WaitingForHeader");

    let frames = buffer.push(&frame2[5..]).unwrap();
    assert_eq!(frames.len(), 1);
    assert_eq!(frames[0].method_id(), 2);
}

#[test]
fn test_byte_at_a_time() {
    let mut buffer = FrameBuffer::new();
    let frame_bytes = make_frame_bytes(1, 0, 42, b"hi");

    let mut all_frames = Vec::new();

    for byte in &frame_bytes {
        let frames = buffer.push(&[*byte]).unwrap();
        all_frames.extend(frames);
    }

    assert_eq!(all_frames.len(), 1);
    assert_eq!(all_frames[0].method_id(), 1);
    assert_eq!(&all_frames[0].payload[..], b"hi");
}

#[test]
fn method_id_zero_is_rejected_on_receive() {
    let mut buffer = FrameBuffer::new();
    let bytes = make_frame_bytes(0, 0, 1, b"x");
    let err = buffer.push(&bytes).unwrap_err();
    assert!(err.to_string().contains("Method ID 0 is reserved"));
}

#[test]
fn reserved_flag_bits_are_rejected_on_receive() {
    let mut buffer = FrameBuffer::new();
    let bytes = make_frame_bytes(1, 0x40, 1, b"x");
    let err = buffer.push(&bytes).unwrap_err();
    assert!(err.to_string().contains("Reserved flag bits"));
}

#[test]
fn oversized_header_stays_buffered_after_error() {
    let mut buffer = FrameBuffer::with_max_payload(4);
    let mut bytes = make_frame_bytes(1, 0, 1, b"ok");
    let bad = Header::new(2, 0, 2, 5).encode();
    bytes.extend_from_slice(&bad);
    let err = buffer.push(&bytes).unwrap_err();
    assert_eq!(err.to_string(), "Protocol error: Payload size 5 exceeds maximum 4");
    assert_eq!(buffer.len(), HEADER_SIZE);
    assert_eq!(buffer.state_name(), "WaitingForHeader");
}

#[test]
fn configured_limit_above_absolute_is_capped() {
    let mut buffer = FrameBuffer::with_capacity_and_max_payload(16, u32::MAX);
    let header = Header::new(1, 0, 1, 2_147_483_648);
    let err = buffer.push(&header.encode()).unwrap_err();
    assert_eq!(
        err.to_string(),
        "Protocol error: Payload size 2147483648 exceeds maximum 2147483647"
    );
}

#[test]
fn any_split_point_gives_the_same_frames() {
    let mut stream = build_frame(&Header::new(1, 0, 1, 3), b"abc");
    stream.extend(build_frame(&Header::new(2, flags::RESPONSE, 2, 0), b""));
    stream.extend(build_frame(&Header::new(3, 0, 3, 1), b"z"));
    for cut in 0..=stream.len() {
        let mut buffer = FrameBuffer::default();
        let mut frames = buffer.push(&stream[..cut]).unwrap();
        frames.extend(buffer.push(&stream[cut..]).unwrap());
        let ids: Vec<u16> = frames.iter().map(|f| f.method_id()).collect();
        assert_eq!(ids, vec![1, 2, 3]);
        assert_eq!(frames[0].payload(), b"abc");
        assert_eq!(frames[2].payload(), b"z");
        assert!(buffer.is_empty());
    }
}

#[test]
fn extend_then_try_extract() {
    let mut buffer = FrameBuffer::new();
    buffer.extend(&make_frame_bytes(7, 0, 1, b"ab"));
    assert_eq!(buffer.len(), HEADER_SIZE + 2);
    let frame = buffer.try_extract().unwrap();
    assert_eq!(frame.method_id(), 7);
    assert!(buffer.try_extract().is_none());
}
