use modbus_stack::tcp::{DecodeError, DecodeResult, Decoder, Frame, MbapHeader};

// Helper to feed bytes and return final result
// The key under which each frame is handed to the decoder.
const FRAME_KEY: usize = 1;
const OTHER_FRAME_KEY: usize = 2;

// Helper to feed bytes into the frame with the given key and return the final result
fn feed_bytes_with_key(decoder: &mut Decoder, frame: &mut Frame, key: usize, bytes: &[u8]) -> DecodeResult {
    let mut result = DecodeResult::Pending;
    for &byte in bytes {
        result = decoder.push_data(frame, key, byte);
    }
    result
}

// Helper to feed bytes and return final result
fn feed_bytes(decoder: &mut Decoder, frame: &mut Frame, bytes: &[u8]) -> DecodeResult {
    feed_bytes_with_key(decoder, frame, FRAME_KEY, bytes)
}

#[test]
fn decode_frame_001() {
    let mut decoder = Decoder::new();

    // example frame data
    let received = [
        0x00, 0x01,                 // Transaction ID
        0x00, 0x00,                 // Protocol ID
        0x00, 0x06,                 // Length
        0x11,                       // Unit ID
        0x03,                       // Function code
        0x012, 0x6B, 0x00, 0x03,    // Data
    ];

    // parsing without copy, mutable access to data
    let mut frame = Frame::new_unchecked();
    for byte in received {
        match decoder.push_data(&mut frame, FRAME_KEY, byte) {
            DecodeResult::Done => {
                assert_eq!(frame.mbap().transaction_id(), 0x0001);
                assert_eq!(frame.mbap().protocol_id(), 0x0000);
                assert_eq!(frame.mbap().length(), 0x0006);
                assert_eq!(frame.mbap().unit_id(), 0x11);
            }, 
            DecodeResult::Pending => assert!(true),
            _ => assert!(false)
        } 
    }
}

#[test]
fn decode_frame_002() {
    let mut decoder = Decoder::new();

    // example frame data
    let received = [
        0x00, 0x01, // Transaction ID
        0x00, 0x00, // Protocol ID
        0x00, 0x03, // Length
        0x11,       // Unit ID
        0x83,       // Function code (exception)
        0x01,       // Exception code
    ];

    // parsing without copy, mutable access to data
    let mut frame = Frame::new_unchecked();
    for byte in received {
        match decoder.push_data(&mut frame, FRAME_KEY, byte) {
            DecodeResult::Done => {
                assert_eq!(frame.mbap().transaction_id(), 0x0001);
                assert_eq!(frame.mbap().protocol_id(), 0x0000);
                assert_eq!(frame.mbap().length(), 0x0003);
                assert_eq!(frame.mbap().unit_id(), 0x11);
            }, 
            DecodeResult::Pending => assert!(true),
            _ => assert!(false)
        } 
    }
}
  
// ── Happy path ──

#[test]
fn decode_read_holding_registers_request() {
    let mut decoder = Decoder::new();
    let mut frame = Frame::new_unchecked();

    let received = [
        0x00, 0x01,                 // Transaction ID
        0x00, 0x00,                 // Protocol ID
        0x00, 0x06,                 // Length
        0x11,                       // Unit ID
        0x03,                       // Function code
        0x01, 0x2B, 0x00, 0x03,     // Data
    ];

    let result = feed_bytes(&mut decoder, &mut frame, &received);
    assert_eq!(result, DecodeResult::Done);
    assert_eq!(frame.mbap().transaction_id(), 0x0001);
    assert_eq!(frame.mbap().protocol_id(), 0x0000);
    assert_eq!(frame.mbap().length(), 0x0006);
    assert_eq!(frame.mbap().unit_id(), 0x11);
}

#[test]
fn decode_exception_response() {
    let mut decoder = Decoder::new();
    let mut frame = Frame::new_unchecked();

    let received = [
        0x00, 0x01, 0x00, 0x00, 0x00, 0x03,
        0x11, 0x83, 0x01,
    ];

    let result = feed_bytes(&mut decoder, &mut frame, &received);
    assert_eq!(result, DecodeResult::Done);
    assert_eq!(frame.mbap().length(), 0x0003);
}

#[test]
fn decode_minimum_length_frame() {
    let mut decoder = Decoder::new();
    let mut frame = Frame::new_unchecked();

    // Length = 2: unit_id + function_code, no payload
    let received = [
        0x00, 0x01, 0x00, 0x00, 0x00, 0x02,
        0x11, 0x03,
    ];

    let result = feed_bytes(&mut decoder, &mut frame, &received);
    assert_eq!(result, DecodeResult::Done);
    assert_eq!(frame.mbap().length(), 0x0002);
}

#[test]
fn decode_two_frames_sequentially() {
    let mut decoder = Decoder::new();
    let mut frame = Frame::new_unchecked();

    let frame1 = [
        0x00, 0x01, 0x00, 0x00, 0x00, 0x03,
        0x11, 0x83, 0x01,
    ];
    let frame2 = [
        0x00, 0x02, 0x00, 0x00, 0x00, 0x03,
        0x22, 0x83, 0x02,
    ];

    let result = feed_bytes(&mut decoder, &mut frame, &frame1);
    assert_eq!(result, DecodeResult::Done);
    assert_eq!(frame.mbap().transaction_id(), 0x0001);
    assert_eq!(frame.mbap().unit_id(), 0x11);

    let result = feed_bytes(&mut decoder, &mut frame, &frame2);
    assert_eq!(result, DecodeResult::Done);
    assert_eq!(frame.mbap().transaction_id(), 0x0002);
    assert_eq!(frame.mbap().unit_id(), 0x22);
}

// ── Pending ──

#[test]
fn partial_header_returns_pending() {
    let mut decoder = Decoder::new();
    let mut frame = Frame::new_unchecked();

    // Only 4 of 7 header bytes
    let partial = [0x00, 0x01, 0x00, 0x00];
    let result = feed_bytes(&mut decoder, &mut frame, &partial);
    assert_eq!(result, DecodeResult::Pending);
}

#[test]
fn partial_payload_returns_pending() {
    let mut decoder = Decoder::new();
    let mut frame = Frame::new_unchecked();

    // Full header + partial payload (expects 5 payload bytes, only 2 sent)
    let partial = [
        0x00, 0x01, 0x00, 0x00, 0x00, 0x06,
        0x11, 0x03, 0x01,
    ];
    let result = feed_bytes(&mut decoder, &mut frame, &partial);
    assert_eq!(result, DecodeResult::Pending);
}

#[test]
fn single_byte_returns_pending() {
    let mut decoder = Decoder::new();
    let mut frame = Frame::new_unchecked();

    let result = decoder.push_data(&mut frame, FRAME_KEY, 0x00);
    assert_eq!(result, DecodeResult::Pending);
}

// ── Error: invalid protocol ID ──

#[test]
fn invalid_protocol_id_returns_error() {
    let mut decoder = Decoder::new();
    let mut frame = Frame::new_unchecked();

    let received = [
        0x00, 0x01,
        0x00, 0x01, // wrong protocol ID
        0x00, 0x06,
        0x11,
    ];

    let result = feed_bytes(&mut decoder, &mut frame, &received);
    assert_eq!(result, DecodeResult::Error(DecodeError::InvalidProtocolIdentifier));
}

#[test]
fn invalid_protocol_id_high_byte() {
    let mut decoder = Decoder::new();
    let mut frame = Frame::new_unchecked();

    let received = [
        0x00, 0x01,
        0x01, 0x00, // protocol ID = 0x0100
        0x00, 0x06,
        0x11,
    ];

    let result = feed_bytes(&mut decoder, &mut frame, &received);
    assert_eq!(result, DecodeResult::Error(DecodeError::InvalidProtocolIdentifier));
}

// ── Error: invalid length ──

#[test]
fn length_zero_returns_error() {
    let mut decoder = Decoder::new();
    let mut frame = Frame::new_unchecked();

    let received = [
        0x00, 0x01, 0x00, 0x00,
        0x00, 0x00, // length = 0
        0x11,
    ];

    let result = feed_bytes(&mut decoder, &mut frame, &received);
    assert_eq!(result, DecodeResult::Error(DecodeError::InvalidLength));
}

#[test]
fn length_too_large_returns_error() {
    let mut decoder = Decoder::new();
    let mut frame = Frame::new_unchecked();

    let received = [
        0x00, 0x01, 0x00, 0x00,
        0x00, 0xFF, // length = 255, exceeds max
        0x11,
    ];

    let result = feed_bytes(&mut decoder, &mut frame, &received);
    assert_eq!(result, DecodeResult::Error(DecodeError::InvalidLength));
}

// ── Error state behavior ──

#[test]
fn error_state_persists_until_reset() {
    let mut decoder = Decoder::new();
    let mut frame = Frame::new_unchecked();

    // Trigger error
    let bad = [0x00, 0x01, 0x00, 0x01, 0x00, 0x06, 0x11];
    feed_bytes(&mut decoder, &mut frame, &bad);

    // Subsequent bytes should still return error
    let result = decoder.push_data(&mut frame, FRAME_KEY, 0x00);
    assert_eq!(result, DecodeResult::Error(DecodeError::InvalidProtocolIdentifier));

    let result = decoder.push_data(&mut frame, FRAME_KEY, 0x00);
    assert_eq!(result, DecodeResult::Error(DecodeError::InvalidProtocolIdentifier));
}

#[test]
fn reset_recovers_from_error() {
    let mut decoder = Decoder::new();
    let mut frame = Frame::new_unchecked();

    // Trigger error
    let bad = [0x00, 0x01, 0x00, 0x01, 0x00, 0x06, 0x11];
    feed_bytes(&mut decoder, &mut frame, &bad);

    // Reset and decode valid frame
    decoder.reset();
    let good = [
        0x00, 0x02, 0x00, 0x00, 0x00, 0x03,
        0x22, 0x83, 0x01,
    ];

    let result = feed_bytes(&mut decoder, &mut frame, &good);
    assert_eq!(result, DecodeResult::Done);
    assert_eq!(frame.mbap().transaction_id(), 0x0002);
    assert_eq!(frame.mbap().unit_id(), 0x22);
}

// ── Reset ──

#[test]
fn reset_during_header() {
    let mut decoder = Decoder::new();
    let mut frame = Frame::new_unchecked();

    // Start decoding
    let partial = [0x00, 0x01, 0x00];
    feed_bytes(&mut decoder, &mut frame, &partial);

    // Reset mid-header
    decoder.reset();

    // New valid frame should decode correctly
    let good = [
        0x00, 0x05, 0x00, 0x00, 0x00, 0x03,
        0x11, 0x83, 0x01,
    ];

    let result = feed_bytes(&mut decoder, &mut frame, &good);
    assert_eq!(result, DecodeResult::Done);
    assert_eq!(frame.mbap().transaction_id(), 0x0005);
}

#[test]
fn reset_during_payload() {
    let mut decoder = Decoder::new();
    let mut frame = Frame::new_unchecked();

    // Partial valid frame (header + 1 byte payload)
    let partial = [
        0x00, 0x01, 0x00, 0x00, 0x00, 0x06,
        0x11, 0x03,
    ];
    feed_bytes(&mut decoder, &mut frame, &partial);

    // Reset mid-payload
    decoder.reset();

    // New frame
    let good = [
        0x00, 0x02, 0x00, 0x00, 0x00, 0x03,
        0x22, 0x83, 0x01,
    ];

    let result = feed_bytes(&mut decoder, &mut frame, &good);
    assert_eq!(result, DecodeResult::Done);
    assert_eq!(frame.mbap().transaction_id(), 0x0002);
}

// ── Frame pointer change ──

#[test]
fn different_frame_resets_decoder() {
    let mut decoder = Decoder::new();
    let mut frame1 = Frame::new_unchecked();
    let mut frame2 = Frame::new_unchecked();

    // Start decoding into frame1
    let partial = [0x00, 0x01, 0x00, 0x00];
    feed_bytes_with_key(&mut decoder, &mut frame1, FRAME_KEY, &partial);

    // Switch to frame2 — decoder should reset
    let good = [
        0x00, 0x02, 0x00, 0x00, 0x00, 0x03,
        0x22, 0x83, 0x01,
    ];

    let result = feed_bytes_with_key(&mut decoder, &mut frame2, OTHER_FRAME_KEY, &good);
    assert_eq!(result, DecodeResult::Done);
    assert_eq!(frame2.mbap().transaction_id(), 0x0002);
}

// ── Byte-by-byte ──

#[test]
fn byte_by_byte_only_last_returns_done() {
    let mut decoder = Decoder::new();
    let mut frame = Frame::new_unchecked();

    let received = [
        0x00, 0x01, 0x00, 0x00, 0x00, 0x03,
        0x11, 0x83, 0x01,
    ];

    let mut done_count = 0;
    let mut pending_count = 0;

    for &byte in &received {
        match decoder.push_data(&mut frame, FRAME_KEY, byte) {
            DecodeResult::Done => done_count += 1,
            DecodeResult::Pending => pending_count += 1,
            _ => panic!("unexpected error"),
        }
    }

    assert_eq!(done_count, 1);
    assert_eq!(pending_count, received.len() - 1);
}
